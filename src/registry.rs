//! The client registry: which connection handle belongs to each client address.

use vstd::prelude::*;
use crate::message::ConnId;

verus! {

/// A registered client as a pair of its address and its handle.
pub type EntryView = (Seq<char>, ConnId);

/// No address appears twice.
pub open spec fn addrs_unique(entries: Seq<EntryView>) -> bool {
    forall|i: int, j: int|
        0 <= i < entries.len() && 0 <= j < entries.len() && i != j ==> entries[i].0 != entries[j].0
}

/// Whether some entry has the address.
pub open spec fn has_addr(entries: Seq<EntryView>, addr: Seq<char>) -> bool {
    exists|i: int| 0 <= i < entries.len() && entries[i].0 == addr
}

/// The position of the entry with the address, if there is one.
pub open spec fn index_of(entries: Seq<EntryView>, addr: Seq<char>) -> Option<int> {
    if has_addr(entries, addr) {
        Some(choose|i: int| 0 <= i < entries.len() && entries[i].0 == addr)
    } else {
        None
    }
}

/// The entries after `addr` is bound to `conn`: an entry with that address
/// keeps its place and takes the new handle, else the pair goes last.
pub open spec fn inserted(entries: Seq<EntryView>, addr: Seq<char>, conn: ConnId) -> Seq<EntryView> {
    match index_of(entries, addr) {
        Some(i) => entries.update(i, (addr, conn)),
        None => entries.push((addr, conn)),
    }
}

/// The entries without the one with the address; unchanged when there is none.
pub open spec fn removed(entries: Seq<EntryView>, addr: Seq<char>) -> Seq<EntryView> {
    match index_of(entries, addr) {
        Some(i) => entries.remove(i),
        None => entries,
    }
}

/// In entries with unique addresses, the position of an address is the one
/// position that holds it.
pub proof fn lemma_index_of_unique(entries: Seq<EntryView>, i: int)
    requires
        addrs_unique(entries),
        0 <= i < entries.len(),
    ensures
        index_of(entries, entries[i].0) == Some(i),
{
    assert(has_addr(entries, entries[i].0));
}

/// Binding an address keeps the addresses unique.
pub proof fn lemma_inserted_unique(entries: Seq<EntryView>, addr: Seq<char>, conn: ConnId)
    requires
        addrs_unique(entries),
    ensures
        addrs_unique(inserted(entries, addr, conn)),
        has_addr(inserted(entries, addr, conn), addr),
{
    let r = inserted(entries, addr, conn);
    match index_of(entries, addr) {
        Some(i) => {
            assert(r[i].0 == addr);
        },
        None => {
            assert(r[entries.len() as int].0 == addr);
        },
    }
}

/// Removing an address keeps the addresses unique and leaves it absent.
pub proof fn lemma_removed_unique(entries: Seq<EntryView>, addr: Seq<char>)
    requires
        addrs_unique(entries),
    ensures
        addrs_unique(removed(entries, addr)),
        !has_addr(removed(entries, addr), addr),
{
    let r = removed(entries, addr);
    match index_of(entries, addr) {
        Some(i) => {
            assert forall|k: int| 0 <= k < r.len() implies r[k].0 != addr by {
                if k < i {
                    assert(r[k] == entries[k]);
                } else {
                    assert(r[k] == entries[k + 1]);
                }
            }
            assert forall|a: int, b: int|
                0 <= a < r.len() && 0 <= b < r.len() && a != b implies r[a].0 != r[b].0 by {
                let ea = if a < i { a } else { a + 1 };
                let eb = if b < i { b } else { b + 1 };
                assert(r[a] == entries[ea]);
                assert(r[b] == entries[eb]);
            }
        },
        None => {},
    }
}

/// One registered client.
pub struct ClientEntry {
    pub addr: String,
    pub conn: ConnId,
}

/// The registry: at most one entry per address.
pub struct ClientRegistry {
    entries: Vec<ClientEntry>,
}

impl View for ClientRegistry {
    type V = Seq<EntryView>;

    closed spec fn view(&self) -> Seq<EntryView> {
        self.entries@.map_values(|e: ClientEntry| (e.addr@, e.conn))
    }
}

impl ClientRegistry {
    /// The registry's invariant: one entry per address.
    pub open spec fn wf(&self) -> bool {
        addrs_unique(self@)
    }

    /// An empty registry.
    pub fn new() -> (r: Self)
        ensures
            r@ == Seq::<EntryView>::empty(),
            r.wf(),
    {
        let r = ClientRegistry { entries: Vec::new() };
        assert(r@ =~= Seq::<EntryView>::empty());
        r
    }

    /// The number of registered clients.
    pub fn len(&self) -> (n: usize)
        ensures
            n == self@.len(),
    {
        self.entries.len()
    }

    /// The address of the entry at position `i`.
    pub fn addr_at(&self, i: usize) -> (a: &String)
        requires
            i < self@.len(),
        ensures
            a@ == self@[i as int].0,
    {
        &self.entries[i].addr
    }

    /// The handle of the entry at position `i`.
    pub fn conn_at(&self, i: usize) -> (c: ConnId)
        requires
            i < self@.len(),
        ensures
            c == self@[i as int].1,
    {
        self.entries[i].conn
    }

    /// The position of the entry with the address, if there is one.
    pub fn find(&self, addr: &String) -> (r: Option<usize>)
        requires
            self.wf(),
        ensures
            r is Some <==> has_addr(self@, addr@),
            r matches Some(i) ==> index_of(self@, addr@) == Some(i as int),
    {
        let mut i: usize = 0;
        while i < self.entries.len()
            invariant
                0 <= i <= self@.len(),
                self.wf(),
                self@.len() == self.entries@.len(),
                forall|k: int| 0 <= k < i ==> self@[k].0 != addr@,
            decreases self.entries@.len() - i,
        {
            if self.entries[i].addr == *addr {
                proof {
                    lemma_index_of_unique(self@, i as int);
                }
                return Some(i);
            }
            i = i + 1;
        }
        None
    }

    /// Binds `addr` to `conn`, replacing the handle of an entry with that address.
    pub fn insert(&mut self, addr: String, conn: ConnId)
        requires
            old(self).wf(),
        ensures
            final(self)@ == inserted(old(self)@, addr@, conn),
            final(self).wf(),
    {
        proof {
            lemma_inserted_unique(self@, addr@, conn);
        }
        match self.find(&addr) {
            Some(i) => {
                self.entries.set(i, ClientEntry { addr, conn });
            },
            None => {
                self.entries.push(ClientEntry { addr, conn });
            },
        }
        assert(self@ =~= inserted(old(self)@, addr@, conn));
    }

    /// Drops the entry with the address and hands back its handle; `None`,
    /// with nothing changed, when no entry has it.
    pub fn remove(&mut self, addr: &String) -> (r: Option<ConnId>)
        requires
            old(self).wf(),
        ensures
            final(self)@ == removed(old(self)@, addr@),
            final(self).wf(),
            r is Some <==> has_addr(old(self)@, addr@),
            r matches Some(c) ==> exists|i: int|
                index_of(old(self)@, addr@) == Some(i) && old(self)@[i].1 == c,
    {
        proof {
            lemma_removed_unique(self@, addr@);
        }
        match self.find(addr) {
            Some(i) => {
                let e = self.entries.remove(i);
                assert(self@ =~= removed(old(self)@, addr@));
                Some(e.conn)
            },
            None => None,
        }
    }
}

} // verus!
