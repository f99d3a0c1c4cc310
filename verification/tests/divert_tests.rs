use phantun::divert::{
    copy_packet, deliver_packet, divert_device_name, divert_filter, divert_receive_buffer,
    divert_recv_decision, push_decimal, DivertPoll, DivertRecv, DIVERT_BUFFER_LEN,
};

#[test]
fn filter_names_server_address_and_port() {
    assert_eq!(
        divert_filter("120.26.71.147", 65009),
        "tcp and ip.SrcAddr == 120.26.71.147 and tcp.SrcPort == 65009"
    );
    assert_eq!(divert_filter("10.0.0.1", 0), "tcp and ip.SrcAddr == 10.0.0.1 and tcp.SrcPort == 0");
}

#[test]
fn decimal_of_ports() {
    for n in [0u16, 7, 10, 99, 100, 443, 8080, 65535] {
        let mut s = String::from("p=");
        push_decimal(&mut s, n);
        assert_eq!(s, format!("p={}", n));
    }
}

#[test]
fn copy_truncates_to_buffer() {
    let mut buf = [9u8; 4];
    let n = copy_packet(&mut buf, &[1, 2, 3, 4, 5, 6]);
    assert_eq!(n, 4);
    assert_eq!(buf, [1, 2, 3, 4]);
}

#[test]
fn copy_short_packet_leaves_tail() {
    let mut buf = [9u8; 5];
    let n = copy_packet(&mut buf, &[1, 2]);
    assert_eq!(n, 2);
    assert_eq!(buf, [1, 2, 9, 9, 9]);
    assert_eq!(copy_packet(&mut buf, &[]), 0);
}

#[test]
fn recv_decisions() {
    assert_eq!(divert_recv_decision(DivertPoll::Packet { len: 60 }), DivertRecv::Deliver { len: 60 });
    assert_eq!(divert_recv_decision(DivertPoll::TimedOut), DivertRecv::Retry);
    assert_eq!(divert_recv_decision(DivertPoll::Failed), DivertRecv::Fail);
}

#[test]
fn device_name_and_buffer() {
    assert_eq!(divert_device_name(), "WinDivert");
    assert_eq!(DIVERT_BUFFER_LEN, 1500);
}

#[test]
fn receive_buffer_has_fixed_size() {
    let b = divert_receive_buffer();
    assert_eq!(b.len(), DIVERT_BUFFER_LEN);
    assert!(b.iter().all(|&x| x == 0));
}

#[test]
fn deliver_never_exceeds_receive_buffer() {
    let mut received = divert_receive_buffer();
    for (i, x) in received.iter_mut().enumerate() {
        *x = (i % 251) as u8;
    }
    let mut big = vec![0u8; 4000];
    let n = deliver_packet(&mut big, &received, 3000);
    assert_eq!(n, DIVERT_BUFFER_LEN);
    assert_eq!(&big[..n], &received[..]);
    assert!(big[n..].iter().all(|&x| x == 0));
}

#[test]
fn deliver_takes_packet_length_and_caller_buffer() {
    let mut received = divert_receive_buffer();
    received[0] = 7;
    received[1] = 8;
    received[2] = 9;
    let mut buf = [1u8; 10];
    assert_eq!(deliver_packet(&mut buf, &received, 2), 2);
    assert_eq!(buf, [7, 8, 1, 1, 1, 1, 1, 1, 1, 1]);
    let mut small = [1u8; 2];
    assert_eq!(deliver_packet(&mut small, &received, 60), 2);
    assert_eq!(small, [7, 8]);
}

#[test]
fn timeouts_before_a_packet_are_retried_then_delivered() {
    let polls = [DivertPoll::TimedOut, DivertPoll::TimedOut, DivertPoll::Packet { len: 40 }];
    let mut outcome = None;
    for p in polls {
        match divert_recv_decision(p) {
            DivertRecv::Retry => continue,
            d => {
                outcome = Some(d);
                break;
            }
        }
    }
    assert_eq!(outcome, Some(DivertRecv::Deliver { len: 40 }));
}
