//! The packet-interception backend: the filter that selects the server's
//! packets, and how an intercepted packet reaches the caller's buffer.
use vstd::prelude::*;

verus! {

/// The decimal digit character of `d`, for `d < 10`.
pub open spec fn digit_char(d: nat) -> char {
    if d == 0 { '0' }
    else if d == 1 { '1' }
    else if d == 2 { '2' }
    else if d == 3 { '3' }
    else if d == 4 { '4' }
    else if d == 5 { '5' }
    else if d == 6 { '6' }
    else if d == 7 { '7' }
    else if d == 8 { '8' }
    else { '9' }
}

/// The decimal notation of `n`, without leading zeros.
pub open spec fn decimal(n: nat) -> Seq<char>
    decreases n,
{
    if n < 10 {
        seq![digit_char(n)]
    } else {
        decimal(n / 10).push(digit_char(n % 10))
    }
}

/// The value of a digit character.
pub open spec fn digit_value(c: char) -> nat {
    if c == '1' { 1 }
    else if c == '2' { 2 }
    else if c == '3' { 3 }
    else if c == '4' { 4 }
    else if c == '5' { 5 }
    else if c == '6' { 6 }
    else if c == '7' { 7 }
    else if c == '8' { 8 }
    else if c == '9' { 9 }
    else { 0 }
}

/// Whether a character is one of the decimal digits `0`..`9`.
pub open spec fn is_decimal_digit(c: char) -> bool {
    '0' <= c && c <= '9'
}

/// The number that a string of decimal digits denotes.
pub open spec fn decimal_value(s: Seq<char>) -> nat
    decreases s.len(),
{
    if s.len() == 0 {
        0
    } else {
        decimal_value(s.drop_last()) * 10 + digit_value(s.last())
    }
}

/// Reading back the decimal notation of a number gives the number; the
/// notation starts with a non-zero digit unless the number is zero.
pub proof fn lemma_decimal_round_trip(n: nat)
    ensures
        decimal_value(decimal(n)) == n,
        decimal(n).len() >= 1,
        n > 0 ==> decimal(n)[0] != '0',
        forall|i: int| 0 <= i < decimal(n).len() ==> is_decimal_digit(#[trigger] decimal(n)[i]),
    decreases n,
{
    if n >= 10 {
        lemma_decimal_round_trip(n / 10);
        assert(decimal(n).drop_last() =~= decimal(n / 10));
        assert(decimal(n)[0] == decimal(n / 10)[0]);
        assert(digit_value(digit_char(n % 10)) == n % 10);
        let d = decimal(n);
        assert forall|i: int| 0 <= i < d.len() implies is_decimal_digit(#[trigger] d[i]) by {
            if i < d.len() - 1 {
                assert(d[i] == decimal(n / 10)[i]);
            }
        }
        assert(d.last() == digit_char(n % 10));
        assert(decimal_value(d) == decimal_value(d.drop_last()) * 10 + digit_value(d.last()));
        assert(decimal_value(d) == (n / 10) * 10 + n % 10);
    } else {
        let d = decimal(n);
        assert(d.drop_last() =~= Seq::<char>::empty());
        assert(decimal_value(Seq::<char>::empty()) == 0);
        assert(digit_value(digit_char(n)) == n);
        assert(decimal_value(d) == decimal_value(d.drop_last()) * 10 + digit_value(d.last()));
    }
}

fn digit_str(d: u16) -> (s: &'static str)
    requires
        d < 10,
    ensures
        s@ == seq![digit_char(d as nat)],
{
    proof {
        reveal_strlit("0");
        reveal_strlit("1");
        reveal_strlit("2");
        reveal_strlit("3");
        reveal_strlit("4");
        reveal_strlit("5");
        reveal_strlit("6");
        reveal_strlit("7");
        reveal_strlit("8");
        reveal_strlit("9");
    }
    if d == 0 { "0" }
    else if d == 1 { "1" }
    else if d == 2 { "2" }
    else if d == 3 { "3" }
    else if d == 4 { "4" }
    else if d == 5 { "5" }
    else if d == 6 { "6" }
    else if d == 7 { "7" }
    else if d == 8 { "8" }
    else { "9" }
}

/// Appends the decimal notation of a port number: digits only, without
/// leading zeros, that read back as `n`.
pub fn push_decimal(out: &mut String, n: u16)
    ensures
        final(out)@ == old(out)@ + decimal(n as nat),
        final(out)@.subrange(0, old(out)@.len() as int) == old(out)@,
        final(out)@.len() > old(out)@.len(),
        decimal_value(final(out)@.skip(old(out)@.len() as int)) == n,
        forall|i: int| old(out)@.len() <= i < final(out)@.len() ==> is_decimal_digit(#[trigger] final(out)@[i]),
        n > 0 ==> final(out)@[old(out)@.len() as int] != '0',
    decreases n,
{
    let ghost before = out@;
    if n >= 10 {
        push_decimal(out, n / 10);
        out.append(digit_str(n % 10));
    } else {
        out.append(digit_str(n));
    }
    proof {
        lemma_decimal_round_trip(n as nat);
        assert(out@.skip(before.len() as int) =~= decimal(n as nat));
        assert(out@.subrange(0, before.len() as int) =~= before);
        assert forall|i: int| before.len() <= i < out@.len() implies is_decimal_digit(#[trigger] out@[i]) by {
            assert(out@[i] == decimal(n as nat)[i - before.len()]);
        }
        assert(out@[before.len() as int] == decimal(n as nat)[0]);
    }
}

/// The filter text for packets from the server: TCP packets whose source is
/// the server's address and port.
pub open spec fn spec_divert_filter(ip_text: Seq<char>, port: u16) -> Seq<char> {
    "tcp and ip.SrcAddr == "@ + ip_text + " and tcp.SrcPort == "@ + decimal(port as nat)
}

/// The filter selects TCP packets by the server's source address and source
/// port: after the fixed `tcp and ip.SrcAddr == ` comes the address text, then
/// ` and tcp.SrcPort == `, then digits only, which read back as the port.
pub proof fn lemma_filter_names_server_source(ip_text: Seq<char>, port: u16)
    ensures
        ({
            let f = spec_divert_filter(ip_text, port);
            let k = ip_text.len() as int;
            &&& f.subrange(0, 22) == seq!['t', 'c', 'p', ' ', 'a', 'n', 'd', ' ', 'i', 'p', '.', 'S', 'r', 'c', 'A', 'd', 'd', 'r', ' ', '=', '=', ' ']
            &&& f.subrange(22, 22 + k) == ip_text
            &&& f.subrange(22 + k, 42 + k) == seq![' ', 'a', 'n', 'd', ' ', 't', 'c', 'p', '.', 'S', 'r', 'c', 'P', 'o', 'r', 't', ' ', '=', '=', ' ']
            &&& decimal_value(f.skip(42 + k)) == port
            &&& f.len() > 42 + k
            &&& forall|i: int| 42 + k <= i < f.len() ==> is_decimal_digit(#[trigger] f[i])
        }),
{
    reveal_strlit("tcp and ip.SrcAddr == ");
    reveal_strlit(" and tcp.SrcPort == ");
    lemma_decimal_round_trip(port as nat);
    let f = spec_divert_filter(ip_text, port);
    let k = ip_text.len() as int;
    let d = decimal(port as nat);
    assert(f.subrange(0, 22) =~= seq!['t', 'c', 'p', ' ', 'a', 'n', 'd', ' ', 'i', 'p', '.', 'S', 'r', 'c', 'A', 'd', 'd', 'r', ' ', '=', '=', ' ']);
    assert(f.subrange(22, 22 + k) =~= ip_text);
    assert(f.subrange(22 + k, 42 + k) =~= seq![' ', 'a', 'n', 'd', ' ', 't', 'c', 'p', '.', 'S', 'r', 'c', 'P', 'o', 'r', 't', ' ', '=', '=', ' ']);
    assert(f.skip(42 + k) =~= d);
    assert forall|i: int| 42 + k <= i < f.len() implies is_decimal_digit(#[trigger] f[i]) by {
        assert(f[i] == d[i - 42 - k]);
    }
}

/// Builds the interception filter for the server at `ip_text` (the address as
/// text) and `port`.
pub fn divert_filter(ip_text: &str, port: u16) -> (f: String)
    ensures
        f@ == spec_divert_filter(ip_text@, port),
        f@ == "tcp and ip.SrcAddr == "@ + ip_text@ + " and tcp.SrcPort == "@ + decimal(port as nat),
        f@.subrange(0, 22) == seq!['t', 'c', 'p', ' ', 'a', 'n', 'd', ' ', 'i', 'p', '.', 'S', 'r', 'c', 'A', 'd', 'd', 'r', ' ', '=', '=', ' '],
        f@.subrange(22, 22 + ip_text@.len() as int) == ip_text@,
        f@.subrange(22 + ip_text@.len() as int, 42 + ip_text@.len() as int) == seq![' ', 'a', 'n', 'd', ' ', 't', 'c', 'p', '.', 'S', 'r', 'c', 'P', 'o', 'r', 't', ' ', '=', '=', ' '],
        decimal_value(f@.skip(42 + ip_text@.len() as int)) == port,
        forall|i: int| 42 + ip_text@.len() as int <= i < f@.len() ==> is_decimal_digit(#[trigger] f@[i]),
        f@.len() > 42 + ip_text@.len() as int,
{
    proof {
        reveal_strlit("tcp and ip.SrcAddr == ");
        reveal_strlit(" and tcp.SrcPort == ");
    }
    let mut f = String::from_str("tcp and ip.SrcAddr == ");
    f.append(ip_text);
    f.append(" and tcp.SrcPort == ");
    let ghost before = f@;
    assert(before.len() == 42 + ip_text@.len() as int);
    push_decimal(&mut f, port);
    assert(f@.subrange(0, 22) =~= before.subrange(0, 22));
    assert(f@.subrange(22, 22 + ip_text@.len() as int) =~= before.subrange(22, 22 + ip_text@.len() as int));
    assert(f@.subrange(22 + ip_text@.len() as int, 42 + ip_text@.len() as int) =~= before.subrange(22 + ip_text@.len() as int, 42 + ip_text@.len() as int));
    assert(before.subrange(22, 22 + ip_text@.len() as int) =~= ip_text@);
    assert(before.subrange(0, 22) =~= seq!['t', 'c', 'p', ' ', 'a', 'n', 'd', ' ', 'i', 'p', '.', 'S', 'r', 'c', 'A', 'd', 'd', 'r', ' ', '=', '=', ' ']);
    assert(before.subrange(22 + ip_text@.len() as int, 42 + ip_text@.len() as int) =~= seq![' ', 'a', 'n', 'd', ' ', 't', 'c', 'p', '.', 'S', 'r', 'c', 'P', 'o', 'r', 't', ' ', '=', '=', ' ']);
    f
}

/// The name that the interception backend reports for its device.
pub fn divert_device_name() -> (s: String)
    ensures
        s@ == "WinDivert"@,
{
    String::from_str("WinDivert")
}

/// Size of the buffer one intercepted packet is read into.
pub const DIVERT_BUFFER_LEN: usize = 1500;

/// How one wait for an intercepted packet ended.
#[derive(PartialEq, Eq, Structural, Clone, Copy, Debug)]
pub enum DivertPoll {
    /// A packet of `len` bytes was read.
    Packet { len: usize },
    /// The wait ran out with no packet.
    TimedOut,
    /// The interception handle reported an error.
    Failed,
}

/// What the receiving loop does after one wait.
#[derive(PartialEq, Eq, Structural, Clone, Copy, Debug)]
pub enum DivertRecv {
    /// Hand over the first `len` bytes of the read buffer.
    Deliver { len: usize },
    /// Wait again.
    Retry,
    /// Give up with an error.
    Fail,
}

/// What one wait for an intercepted packet leads to.
pub open spec fn spec_recv_decision(poll: DivertPoll) -> DivertRecv {
    match poll {
        DivertPoll::Packet { len } => DivertRecv::Deliver { len },
        DivertPoll::TimedOut => DivertRecv::Retry,
        DivertPoll::Failed => DivertRecv::Fail,
    }
}

/// Decides what one wait for an intercepted packet leads to: a packet is
/// delivered, a timeout is retried, and an error is reported.
pub fn divert_recv_decision(poll: DivertPoll) -> (d: DivertRecv)
    ensures
        d == spec_recv_decision(poll),
        poll matches DivertPoll::Packet { len } ==> d == (DivertRecv::Deliver { len }),
        poll == DivertPoll::TimedOut ==> d == DivertRecv::Retry,
        poll == DivertPoll::Failed ==> d == DivertRecv::Fail,
{
    match poll {
        DivertPoll::Packet { len } => DivertRecv::Deliver { len },
        DivertPoll::TimedOut => DivertRecv::Retry,
        DivertPoll::Failed => DivertRecv::Fail,
    }
}

/// How a receive ends when its successive waits end as `polls`: the decision
/// of the first wait that is not retried, or `None` while every wait is retried.
pub open spec fn spec_recv_run(polls: Seq<DivertPoll>) -> Option<DivertRecv>
    decreases polls.len(),
{
    if polls.len() == 0 {
        None
    } else if spec_recv_decision(polls[0]) == DivertRecv::Retry {
        spec_recv_run(polls.drop_first())
    } else {
        Some(spec_recv_decision(polls[0]))
    }
}

/// `k` waits that ran out with no packet.
pub open spec fn timeouts(k: nat) -> Seq<DivertPoll> {
    Seq::new(k, |i: int| DivertPoll::TimedOut)
}

/// Timeouts are invisible: after any number of waits that ran out, a receive
/// ends exactly as it would have without them. It never ends in a retry, so
/// a timeout is never reported to the caller, neither as data nor as an error.
pub proof fn lemma_timeouts_are_invisible(k: nat, rest: Seq<DivertPoll>)
    ensures
        spec_recv_run(timeouts(k) + rest) == spec_recv_run(rest),
        spec_recv_run(rest) != Some(DivertRecv::Retry),
    decreases k,
{
    lemma_run_never_retries(rest);
    if k > 0 {
        let s = timeouts(k) + rest;
        assert(s[0] == DivertPoll::TimedOut);
        assert(s.drop_first() =~= timeouts((k - 1) as nat) + rest);
        lemma_timeouts_are_invisible((k - 1) as nat, rest);
    } else {
        assert(timeouts(k) + rest =~= rest);
    }
}

proof fn lemma_run_never_retries(polls: Seq<DivertPoll>)
    ensures
        spec_recv_run(polls) != Some(DivertRecv::Retry),
    decreases polls.len(),
{
    if polls.len() > 0 {
        lemma_run_never_retries(polls.drop_first());
    }
}

/// A receive whose first non-timeout wait read a packet of `len` bytes
/// delivers that packet, and one whose first non-timeout wait failed fails.
pub proof fn lemma_first_outcome_decides(k: nat, len: usize, rest: Seq<DivertPoll>)
    ensures
        spec_recv_run(timeouts(k) + seq![DivertPoll::Packet { len }] + rest) == Some(DivertRecv::Deliver { len }),
        spec_recv_run(timeouts(k) + seq![DivertPoll::Failed] + rest) == Some(DivertRecv::Fail),
{
    let p = seq![DivertPoll::Packet { len }] + rest;
    let f = seq![DivertPoll::Failed] + rest;
    lemma_timeouts_are_invisible(k, p);
    lemma_timeouts_are_invisible(k, f);
    assert(timeouts(k) + seq![DivertPoll::Packet { len }] + rest =~= timeouts(k) + p);
    assert(timeouts(k) + seq![DivertPoll::Failed] + rest =~= timeouts(k) + f);
    assert(p[0] == DivertPoll::Packet { len });
    assert(f[0] == DivertPoll::Failed);
}

/// A fresh, zeroed buffer that one intercepted packet is read into.
pub fn divert_receive_buffer() -> (b: Vec<u8>)
    ensures
        b@.len() == DIVERT_BUFFER_LEN,
{
    vec![0u8; DIVERT_BUFFER_LEN]
}

/// The smallest of three lengths.
pub open spec fn min3(a: int, b: int, c: int) -> int {
    if a <= b && a <= c { a } else if b <= c { b } else { c }
}

/// Hands an intercepted packet to the caller: of the `packet_len` bytes read
/// into the receive buffer `received`, copies as many as fit into `buf`.
/// Never more than the receive buffer holds, so at most `DIVERT_BUFFER_LEN`.
pub fn deliver_packet(buf: &mut [u8], received: &[u8], packet_len: usize) -> (n: usize)
    requires
        received@.len() == DIVERT_BUFFER_LEN,
    ensures
        n == min3(packet_len as int, DIVERT_BUFFER_LEN as int, old(buf)@.len() as int),
        n <= DIVERT_BUFFER_LEN,
        n <= old(buf)@.len(),
        final(buf)@.len() == old(buf)@.len(),
        final(buf)@.subrange(0, n as int) == received@.subrange(0, n as int),
        final(buf)@.subrange(n as int, final(buf)@.len() as int) == old(buf)@.subrange(n as int, old(buf)@.len() as int),
{
    let keep: usize = if packet_len < received.len() { packet_len } else { received.len() };
    let packet = slice_prefix(received, keep);
    copy_packet(buf, packet)
}

fn slice_prefix(s: &[u8], n: usize) -> (p: &[u8])
    requires
        n <= s@.len(),
    ensures
        p@ == s@.subrange(0, n as int),
{
    s.split_at(n).0
}

/// Copies as much of a received packet as fits into the caller's buffer and
/// returns how many bytes were copied; the rest of the buffer is unchanged.
pub fn copy_packet(buf: &mut [u8], data: &[u8]) -> (n: usize)
    ensures
        n == (if data@.len() < old(buf)@.len() { data@.len() } else { old(buf)@.len() }),
        final(buf)@.len() == old(buf)@.len(),
        final(buf)@.subrange(0, n as int) == data@.subrange(0, n as int),
        final(buf)@.subrange(n as int, final(buf)@.len() as int) == old(buf)@.subrange(n as int, old(buf)@.len() as int),
{
    let n: usize = if data.len() < buf.len() { data.len() } else { buf.len() };
    let mut i: usize = 0;
    while i < n
        invariant
            n <= data@.len(),
            n <= old(buf)@.len(),
            i <= n,
            buf@.len() == old(buf)@.len(),
            forall|j: int| 0 <= j < i ==> buf@[j] == data@[j],
            forall|j: int| i <= j < buf@.len() ==> buf@[j] == old(buf)@[j],
        decreases n - i,
    {
        buf[i] = data[i];
        i = i + 1;
    }
    assert(buf@.subrange(0, n as int) =~= data@.subrange(0, n as int));
    assert(buf@.subrange(n as int, buf@.len() as int) =~= old(buf)@.subrange(n as int, old(buf)@.len() as int));
    n
}

} // verus!
