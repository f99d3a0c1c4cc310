//! Socket addresses as plain values, and the choices the client makes among them.
use vstd::prelude::*;

verus! {

/// An IP address, by its numeric value in network order (32 bits for IPv4, 128 for IPv6).
#[derive(PartialEq, Eq, Structural, Clone, Copy, Debug)]
pub enum IpAddress {
    V4(u32),
    V6(u128),
}

/// A socket address. An IPv6 one carries its flow label and scope id as well.
#[allow(inconsistent_fields)]
#[derive(PartialEq, Eq, Structural, Clone, Copy, Debug)]
pub enum SocketAddress {
    V4 { ip: u32, port: u16 },
    V6 { ip: u128, port: u16, flowinfo: u32, scope_id: u32 },
}

impl SocketAddress {
    pub open spec fn spec_is_ipv4(&self) -> bool {
        self is V4
    }

    #[verifier::when_used_as_spec(spec_is_ipv4)]
    pub fn is_ipv4(&self) -> (b: bool)
        ensures
            b == self.spec_is_ipv4(),
    {
        match self {
            SocketAddress::V4 { .. } => true,
            SocketAddress::V6 { .. } => false,
        }
    }

    pub open spec fn spec_port(&self) -> u16 {
        match *self {
            SocketAddress::V4 { port, .. } => port,
            SocketAddress::V6 { port, .. } => port,
        }
    }

    #[verifier::when_used_as_spec(spec_port)]
    pub fn port(&self) -> (p: u16)
        ensures
            p == self.spec_port(),
    {
        match self {
            SocketAddress::V4 { port, .. } => *port,
            SocketAddress::V6 { port, .. } => *port,
        }
    }
}

/// Whether a resolved server address may be used.
pub open spec fn acceptable(addr: SocketAddress, ipv4_only: bool) -> bool {
    !ipv4_only || addr.is_ipv4()
}

/// The first resolved address that may be used, if any.
pub open spec fn spec_first_acceptable(candidates: Seq<SocketAddress>, ipv4_only: bool) -> Option<SocketAddress>
    decreases candidates.len(),
{
    if candidates.len() == 0 {
        None
    } else if acceptable(candidates[0], ipv4_only) {
        Some(candidates[0])
    } else {
        spec_first_acceptable(candidates.drop_first(), ipv4_only)
    }
}

/// Picks the server address among the ones that name resolution gave, in their
/// order: the first one, or the first IPv4 one in IPv4-only mode. `None` when
/// there is no such address.
pub fn select_remote(candidates: &Vec<SocketAddress>, ipv4_only: bool) -> (r: Option<SocketAddress>)
    ensures
        r == spec_first_acceptable(candidates@, ipv4_only),
        match r {
            Some(a) => exists|i: int|
                0 <= i < candidates@.len() && candidates@[i] == a && acceptable(a, ipv4_only)
                    && forall|j: int| 0 <= j < i ==> !acceptable(#[trigger] candidates@[j], ipv4_only),
            None => forall|j: int|
                0 <= j < candidates@.len() ==> !acceptable(#[trigger] candidates@[j], ipv4_only),
        },
{
    let mut i: usize = 0;
    assert(candidates@.skip(0) =~= candidates@);
    while i < candidates.len()
        invariant
            0 <= i <= candidates@.len(),
            forall|j: int| 0 <= j < i ==> !acceptable(#[trigger] candidates@[j], ipv4_only),
            spec_first_acceptable(candidates@, ipv4_only) == spec_first_acceptable(
                candidates@.skip(i as int),
                ipv4_only,
            ),
        decreases candidates@.len() - i,
    {
        let a = candidates[i];
        assert(candidates@.skip(i as int)[0] == a);
        if !ipv4_only || a.is_ipv4() {
            return Some(a);
        }
        assert(candidates@.skip(i as int).drop_first() =~= candidates@.skip(i + 1));
        i = i + 1;
    }
    assert(candidates@.skip(i as int).len() == 0);
    None
}

/// Whether a client's address and the local address that its datagram came to
/// belong to the same family.
pub open spec fn same_family(client: SocketAddress, local_ip: IpAddress) -> bool {
    (client is V4 && local_ip is V4) || (client is V6 && local_ip is V6)
}

/// The address that a connection's own UDP socket binds to: the local address
/// the client's first datagram arrived at, with the listen port, and for IPv6
/// the client's flow label and scope id.
pub open spec fn spec_session_bind_address(client: SocketAddress, local_ip: IpAddress, listen_port: u16) -> SocketAddress {
    match (client, local_ip) {
        (SocketAddress::V6 { flowinfo, scope_id, .. }, IpAddress::V6(bits)) =>
            SocketAddress::V6 { ip: bits, port: listen_port, flowinfo, scope_id },
        (_, IpAddress::V4(bits)) => SocketAddress::V4 { ip: bits, port: listen_port },
        (_, IpAddress::V6(bits)) =>
            SocketAddress::V6 { ip: bits, port: listen_port, flowinfo: 0, scope_id: 0 },
    }
}

/// Computes the bind address of a connection's own UDP socket. The two
/// addresses must be of one family.
pub fn session_bind_address(client: SocketAddress, local_ip: IpAddress, listen_port: u16) -> (a: SocketAddress)
    requires
        same_family(client, local_ip),
    ensures
        a == spec_session_bind_address(client, local_ip, listen_port),
        a.is_ipv4() == client.is_ipv4(),
        a.port() == listen_port,
        local_ip matches IpAddress::V4(b) ==> a == (SocketAddress::V4 { ip: b, port: listen_port }),
        local_ip matches IpAddress::V6(b) ==> (client matches SocketAddress::V6 { flowinfo, scope_id, .. }
            ==> a == (SocketAddress::V6 { ip: b, port: listen_port, flowinfo, scope_id })),
{
    match (client, local_ip) {
        (SocketAddress::V4 { .. }, IpAddress::V4(bits)) => SocketAddress::V4 { ip: bits, port: listen_port },
        (SocketAddress::V6 { flowinfo, scope_id, .. }, IpAddress::V6(bits)) =>
            SocketAddress::V6 { ip: bits, port: listen_port, flowinfo, scope_id },
        (_, IpAddress::V4(bits)) => SocketAddress::V4 { ip: bits, port: listen_port },
        (_, IpAddress::V6(bits)) => SocketAddress::V6 { ip: bits, port: listen_port, flowinfo: 0, scope_id: 0 },
    }
}

/// A session's socket binds to the local address that the client's datagram
/// arrived at (never the client's own address), on the listen port; an IPv6
/// one keeps the client's flow label and scope id.
pub proof fn lemma_bind_address_is_local(client: SocketAddress, local_ip: IpAddress, listen_port: u16)
    requires
        same_family(client, local_ip),
    ensures
        local_ip matches IpAddress::V4(b) ==> spec_session_bind_address(client, local_ip, listen_port)
            == (SocketAddress::V4 { ip: b, port: listen_port }),
        local_ip matches IpAddress::V6(b) ==> (client matches SocketAddress::V6 { flowinfo, scope_id, .. }
            ==> spec_session_bind_address(client, local_ip, listen_port)
            == (SocketAddress::V6 { ip: b, port: listen_port, flowinfo, scope_id })),
{
}

/// In IPv4-only mode the chosen server address is an IPv4 one.
pub proof fn lemma_ipv4_only_selects_ipv4(candidates: Seq<SocketAddress>)
    ensures
        spec_first_acceptable(candidates, true) matches Some(a) ==> a.is_ipv4(),
    decreases candidates.len(),
{
    if candidates.len() > 0 {
        lemma_ipv4_only_selects_ipv4(candidates.drop_first());
    }
}

/// Without IPv4-only mode the first resolved address is taken.
pub proof fn lemma_any_family_takes_first(candidates: Seq<SocketAddress>)
    ensures
        spec_first_acceptable(candidates, false) == (if candidates.len() == 0 {
            None
        } else {
            Some(candidates[0])
        }),
{
}

} // verus!
