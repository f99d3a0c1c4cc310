//! The table of open connections: which fake-TCP connection carries each
//! UDP client's traffic.
use vstd::prelude::*;
use crate::address::SocketAddress;

verus! {

/// Identifies one fake-TCP connection to the server.
pub type ConnId = u64;

/// Maps each UDP client address to the connection that carries its datagrams.
/// At most one connection belongs to a client.
pub struct ConnectionTable {
    entries: Vec<(SocketAddress, ConnId)>,
}

/// No client address occurs twice.
pub open spec fn distinct_clients(s: Seq<(SocketAddress, ConnId)>) -> bool {
    forall|i: int, j: int| 0 <= i < j < s.len() ==> #[trigger] s[i].0 != #[trigger] s[j].0
}

/// The map that a list of entries with distinct clients stands for.
pub open spec fn entries_map(s: Seq<(SocketAddress, ConnId)>) -> Map<SocketAddress, ConnId>
    decreases s.len(),
{
    if s.len() == 0 {
        Map::empty()
    } else {
        entries_map(s.drop_last()).insert(s.last().0, s.last().1)
    }
}

proof fn lemma_entries_map_dom(s: Seq<(SocketAddress, ConnId)>, k: SocketAddress)
    ensures
        entries_map(s).dom().contains(k) <==> exists|i: int| 0 <= i < s.len() && #[trigger] s[i].0 == k,
    decreases s.len(),
{
    if s.len() > 0 {
        lemma_entries_map_dom(s.drop_last(), k);
        if entries_map(s.drop_last()).dom().contains(k) {
            let i = choose|i: int| 0 <= i < s.drop_last().len() && #[trigger] s.drop_last()[i].0 == k;
            assert(s[i].0 == k);
        }
        if exists|i: int| 0 <= i < s.len() && #[trigger] s[i].0 == k {
            let i = choose|i: int| 0 <= i < s.len() && #[trigger] s[i].0 == k;
            if i < s.len() - 1 {
                assert(s.drop_last()[i].0 == k);
            }
        }
    }
}

proof fn lemma_entries_map_at(s: Seq<(SocketAddress, ConnId)>, i: int)
    requires
        distinct_clients(s),
        0 <= i < s.len(),
    ensures
        entries_map(s).dom().contains(s[i].0),
        entries_map(s)[s[i].0] == s[i].1,
    decreases s.len(),
{
    lemma_entries_map_dom(s, s[i].0);
    if i < s.len() - 1 {
        let t = s.drop_last();
        assert(t[i] == s[i]);
        assert(distinct_clients(t));
        lemma_entries_map_at(t, i);
        assert(s[i].0 != s[s.len() - 1].0);
    }
}

proof fn lemma_entries_map_push(s: Seq<(SocketAddress, ConnId)>, e: (SocketAddress, ConnId))
    ensures
        entries_map(s.push(e)) == entries_map(s).insert(e.0, e.1),
{
    assert(s.push(e).drop_last() =~= s);
}

proof fn lemma_entries_map_remove(s: Seq<(SocketAddress, ConnId)>, i: int)
    requires
        distinct_clients(s),
        0 <= i < s.len(),
    ensures
        distinct_clients(s.remove(i)),
        entries_map(s.remove(i)) == entries_map(s).remove(s[i].0),
{
    let t = s.remove(i);
    let k = s[i].0;
    assert forall|a: int, b: int| 0 <= a < b < t.len() implies #[trigger] t[a].0 != #[trigger] t[b].0 by {
        let a2 = if a < i { a } else { a + 1 };
        let b2 = if b < i { b } else { b + 1 };
        assert(t[a] == s[a2]);
        assert(t[b] == s[b2]);
    }
    assert forall|x: SocketAddress| #[trigger] entries_map(t).dom().contains(x) <==> entries_map(s).remove(k).dom().contains(x) by {
        lemma_entries_map_dom(t, x);
        lemma_entries_map_dom(s, x);
        if exists|j: int| 0 <= j < t.len() && #[trigger] t[j].0 == x {
            let j = choose|j: int| 0 <= j < t.len() && #[trigger] t[j].0 == x;
            let j2 = if j < i { j } else { j + 1 };
            assert(t[j] == s[j2]);
            assert(s[j2].0 == x);
        }
        if x != k && exists|j: int| 0 <= j < s.len() && #[trigger] s[j].0 == x {
            let j = choose|j: int| 0 <= j < s.len() && #[trigger] s[j].0 == x;
            assert(j != i);
            let j2 = if j < i { j } else { j - 1 };
            assert(t[j2] == s[j]);
        }
    }
    assert forall|x: SocketAddress| #[trigger] entries_map(t).dom().contains(x) implies entries_map(t)[x] == entries_map(s).remove(k)[x] by {
        lemma_entries_map_dom(t, x);
        let j = choose|j: int| 0 <= j < t.len() && #[trigger] t[j].0 == x;
        let j2 = if j < i { j } else { j + 1 };
        assert(t[j] == s[j2]);
        lemma_entries_map_at(t, j);
        lemma_entries_map_at(s, j2);
    }
    assert(entries_map(t) =~= entries_map(s).remove(k));
}

impl View for ConnectionTable {
    type V = Map<SocketAddress, ConnId>;

    closed spec fn view(&self) -> Map<SocketAddress, ConnId> {
        entries_map(self.entries@)
    }
}

impl ConnectionTable {
    /// The table's internal invariant.
    pub closed spec fn wf(&self) -> bool {
        distinct_clients(self.entries@)
    }

    /// An empty table.
    pub fn new() -> (t: ConnectionTable)
        ensures
            t.wf(),
            t@ == Map::<SocketAddress, ConnId>::empty(),
    {
        ConnectionTable { entries: Vec::new() }
    }

    /// Number of open connections.
    pub fn len(&self) -> (n: usize)
        requires
            self.wf(),
        ensures
            n == self@.len(),
    {
        proof { self.lemma_len(); }
        self.entries.len()
    }

    proof fn lemma_len(&self)
        requires
            self.wf(),
        ensures
            self@.dom().finite(),
            self@.len() == self.entries@.len(),
    {
        lemma_entries_map_len(self.entries@);
    }

    fn index_of(&self, client: &SocketAddress) -> (r: Option<usize>)
        requires
            self.wf(),
        ensures
            match r {
                Some(i) => i < self.entries@.len() && self.entries@[i as int].0 == *client,
                None => forall|j: int| 0 <= j < self.entries@.len() ==> #[trigger] self.entries@[j].0 != *client,
            },
    {
        let mut i: usize = 0;
        while i < self.entries.len()
            invariant
                i <= self.entries@.len(),
                forall|j: int| 0 <= j < i ==> #[trigger] self.entries@[j].0 != *client,
            decreases self.entries@.len() - i,
        {
            if self.entries[i].0 == *client {
                return Some(i);
            }
            i = i + 1;
        }
        None
    }

    /// The connection of a client, if it has one.
    pub fn lookup(&self, client: &SocketAddress) -> (r: Option<ConnId>)
        requires
            self.wf(),
        ensures
            r == (if self@.dom().contains(*client) {
                Some(self@[*client])
            } else {
                None
            }),
    {
        proof { lemma_entries_map_dom(self.entries@, *client); }
        match self.index_of(client) {
            Some(i) => {
                proof { lemma_entries_map_at(self.entries@, i as int); }
                Some(self.entries[i].1)
            },
            None => None,
        }
    }

    /// Records the connection of a client that has none.
    pub fn register(&mut self, client: SocketAddress, conn: ConnId)
        requires
            old(self).wf(),
            !old(self)@.dom().contains(client),
        ensures
            final(self).wf(),
            final(self)@ == old(self)@.insert(client, conn),
    {
        proof {
            lemma_entries_map_dom(self.entries@, client);
            lemma_entries_map_push(self.entries@, (client, conn));
        }
        self.entries.push((client, conn));
        proof {
            let s = self.entries@;
            assert forall|i: int, j: int| 0 <= i < j < s.len() implies #[trigger] s[i].0 != #[trigger] s[j].0 by {
                if j == s.len() - 1 {
                    assert(old(self).entries@[i] == s[i]);
                } else {
                    assert(old(self).entries@[i] == s[i]);
                    assert(old(self).entries@[j] == s[j]);
                }
            }
        }
    }

    /// Forgets the connection of a client; the table is unchanged when the
    /// client has none.
    pub fn remove(&mut self, client: &SocketAddress)
        requires
            old(self).wf(),
        ensures
            final(self).wf(),
            final(self)@ == old(self)@.remove(*client),
    {
        proof { lemma_entries_map_dom(self.entries@, *client); }
        match self.index_of(client) {
            Some(i) => {
                proof { lemma_entries_map_remove(self.entries@, i as int); }
                self.entries.remove(i);
            },
            None => {
                assert(self@.remove(*client) =~= self@);
            },
        }
    }
}

proof fn lemma_entries_map_len(s: Seq<(SocketAddress, ConnId)>)
    requires
        distinct_clients(s),
    ensures
        entries_map(s).dom().finite(),
        entries_map(s).len() == s.len(),
    decreases s.len(),
{
    if s.len() > 0 {
        let t = s.drop_last();
        assert(distinct_clients(t));
        lemma_entries_map_len(t);
        lemma_entries_map_dom(t, s.last().0);
        if entries_map(t).dom().contains(s.last().0) {
            let i = choose|i: int| 0 <= i < t.len() && #[trigger] t[i].0 == s.last().0;
            assert(s[i] == t[i]);
        }
    }
}

} // verus!
