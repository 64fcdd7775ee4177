//! The server's registry of declared objects.
//!
//! Every publisher, subscriber, queryable and querier that a client declares
//! is kept under a numeric handle together with the id of the client that
//! declared it. Only that client may use or undeclare it, and when a client
//! goes away everything it declared is removed at once.

use std::collections::HashMap;
use vstd::prelude::*;
use vstd::std_specs::hash::*;
use vstd::std_specs::iter::IteratorSpec;

use crate::text::same_chars;

verus! {

broadcast use group_hash_axioms;

/// Why a request on a handle or a query was refused.
#[derive(Debug, Clone, Copy, PartialEq, Eq, Structural)]
pub enum AccessError {
    /// No object or query is registered under the id.
    NotFound,
    /// The object or query belongs to another client.
    NotOwner,
    /// The query was not delivered through the queryable named in the request.
    WrongQueryable,
}

/// Allows a request of `client_id` on an object owned by `owner`.
pub fn ensure_owner(client_id: &str, owner: &str) -> (r: Result<(), AccessError>)
    ensures
        r == (if client_id@ == owner@ {
            Ok::<(), AccessError>(())
        } else {
            Err::<(), AccessError>(AccessError::NotOwner)
        }),
{
    if same_chars(client_id, owner) {
        Ok(())
    } else {
        Err(AccessError::NotOwner)
    }
}

/// An object together with the id of the client that declared it.
pub struct Owned<V> {
    pub owner: String,
    pub value: V,
}

/// Hands out handles: 1, 2, 3, ... in turn (after `u64::MAX` the counter
/// wraps around to 0).
pub struct HandleCounter {
    next: u64,
}

impl HandleCounter {
    /// The handle the next allocation returns.
    pub closed spec fn next(&self) -> u64 {
        self.next
    }

    pub fn new() -> (c: Self)
        ensures
            c.next() == 1,
    {
        HandleCounter { next: 1 }
    }

    /// Returns the current value and advances the counter by one.
    pub fn alloc_handle(&mut self) -> (h: u64)
        ensures
            h == old(self).next(),
            final(self).next() == vstd::wrapping::u64_specs::wrapping_add(old(self).next(), 1),
    {
        let h = self.next;
        self.next = self.next.wrapping_add(1);
        h
    }
}

/// The value of a counter at `next` after `k` more allocations.
pub open spec fn advanced(next: u64, k: nat) -> u64 {
    ((next + k) % 0x1_0000_0000_0000_0000) as u64
}

/// One allocation advances the counter by one; allocations compose.
pub proof fn lemma_advanced_step(next: u64, k: nat)
    ensures
        advanced(next, 0) == next,
        advanced(advanced(next, k), 1) == advanced(next, k + 1),
        vstd::wrapping::u64_specs::wrapping_add(advanced(next, k), 1) == advanced(next, k + 1),
{
}

/// A handle comes back only after `2^64` allocations: the handles of fewer
/// allocations in a row are pairwise distinct.
pub proof fn lemma_handles_distinct(next: u64, i: nat, j: nat)
    requires
        i < j,
        j - i < 0x1_0000_0000_0000_0000,
    ensures
        advanced(next, i) != advanced(next, j),
{
}

/// The objects of one kind, each under its handle.
pub struct HandleTable<V> {
    entries: HashMap<u64, Owned<V>>,
}

/// The owners of the entries of a table.
pub open spec fn owners_of<V>(m: Map<u64, Owned<V>>) -> Map<u64, Seq<char>> {
    m.map_values(|e: Owned<V>| e.owner@)
}

/// The objects of the entries of a table.
pub open spec fn values_of<V>(m: Map<u64, Owned<V>>) -> Map<u64, V> {
    m.map_values(|e: Owned<V>| e.value)
}

/// The handles of a list of handle-object pairs.
pub open spec fn handles_of<V>(s: Seq<(u64, V)>) -> Seq<u64> {
    s.map_values(|p: (u64, V)| p.0)
}

/// `hs` holds exactly the handles of the entries of `m` that `client` owns.
pub open spec fn picks_owned<V>(hs: Seq<u64>, m: Map<u64, Owned<V>>, client: Seq<char>) -> bool {
    forall|h: u64| hs.contains(h) <==> (m.contains_key(h) && m[h].owner@ == client)
}

/// The entries of `m` whose owner is not `client`.
pub open spec fn without_owner<V>(m: Map<u64, Owned<V>>, client: Seq<char>) -> Map<u64, Owned<V>> {
    m.restrict(m.dom().filter(|h: u64| m[h].owner@ != client))
}

impl<V> HandleTable<V> {
    /// The registered entries.
    pub closed spec fn entries(&self) -> Map<u64, Owned<V>> {
        self.entries@
    }

    /// Which client owns each handle.
    pub open spec fn owners(&self) -> Map<u64, Seq<char>> {
        owners_of(self.entries())
    }

    /// Which object each handle names.
    pub open spec fn values(&self) -> Map<u64, V> {
        values_of(self.entries())
    }

    pub fn new() -> (t: Self)
        ensures
            t.entries() == Map::<u64, Owned<V>>::empty(),
    {
        HandleTable { entries: HashMap::new() }
    }

    /// Registers `value` under `handle` for `owner`, replacing any entry
    /// that the handle named before.
    pub fn insert(&mut self, handle: u64, owner: String, value: V)
        ensures
            final(self).entries() == old(self).entries().insert(
                handle,
                Owned { owner, value },
            ),
    {
        let _ = self.entries.insert(handle, Owned { owner, value });
    }

    /// The object under `handle`, when `client` owns it.
    pub fn get_owned(&self, handle: u64, client: &str) -> (r: Result<&V, AccessError>)
        ensures
            !self.entries().contains_key(handle) ==> r == Err::<&V, AccessError>(
                AccessError::NotFound,
            ),
            self.entries().contains_key(handle) && self.owners()[handle] != client@ ==> r == Err::<
                &V,
                AccessError,
            >(AccessError::NotOwner),
            self.entries().contains_key(handle) && self.owners()[handle] == client@ ==> r == Ok::<
                &V,
                AccessError,
            >(&self.values()[handle]),
    {
        match self.entries.get(&handle) {
            None => Err(AccessError::NotFound),
            Some(entry) => {
                match ensure_owner(client, entry.owner.as_str()) {
                    Ok(()) => Ok(&entry.value),
                    Err(e) => Err(e),
                }
            },
        }
    }

    /// Takes the entry under `handle` out of the table and hands its object
    /// back when `client` owns it. An entry owned by another client leaves
    /// the table as well, and its object is dropped.
    pub fn remove_owned(&mut self, handle: u64, client: &str) -> (r: Result<V, AccessError>)
        ensures
            final(self).entries() == old(self).entries().remove(handle),
            !old(self).entries().contains_key(handle) ==> r == Err::<V, AccessError>(
                AccessError::NotFound,
            ),
            old(self).entries().contains_key(handle) && old(self).owners()[handle] != client@
                ==> r == Err::<V, AccessError>(AccessError::NotOwner),
            old(self).entries().contains_key(handle) && old(self).owners()[handle] == client@
                ==> r == Ok::<V, AccessError>(old(self).values()[handle]),
    {
        match self.entries.remove(&handle) {
            None => Err(AccessError::NotFound),
            Some(entry) => {
                match ensure_owner(client, entry.owner.as_str()) {
                    Ok(()) => Ok(entry.value),
                    Err(e) => Err(e),
                }
            },
        }
    }

    /// The handles of the entries that `client` owns, each once.
    pub fn handles_owned_by(&self, client: &str) -> (r: Vec<u64>)
        ensures
            r@.no_duplicates(),
            forall|h: u64|
                r@.contains(h) <==> (self.entries().contains_key(h) && self.owners()[h]
                    == client@),
    {
        let mut r: Vec<u64> = Vec::new();
        let ghost ks = spec_keys_iter(&self.entries).remaining();
        proof {
            assert(ks.unref().to_set() == self.entries@.dom());
        }
        for k in it: self.entries.keys()
            invariant
                it.seq() == ks,
                ks.unref().to_set() == self.entries@.dom(),
                ks.no_duplicates(),
                r@.no_duplicates(),
                forall|x: u64|
                    r@.contains(x) <==> (exists|j: int|
                        0 <= j < it.index() && *ks[j] == x && self.entries@[x].owner@ == client@),
        {
            let ghost before = r@;
            let h = *k;
            proof {
                assert(ks.unref()[it.index()] == h);
                assert(ks.unref().contains(h));
                assert(self.entries@.dom().contains(h));
            }
            let owner = &self.entries.get(&h).unwrap().owner;
            assert(owner@ == self.entries@[h].owner@);
            let same = same_chars(owner.as_str(), client);
            if same {
                proof {
                    if before.contains(h) {
                        let j = choose|j: int|
                            0 <= j < it.index() && *ks[j] == h && self.entries@[h].owner@
                                == client@;
                        assert(ks[j] == ks[it.index() as int]);
                    }
                }
                r.push(h);
            }
            proof {
                assert forall|x: u64| r@.contains(x) implies (exists|j: int|
                    0 <= j < it.index() + 1 && *ks[j] == x && self.entries@[x].owner@
                        == client@) by {
                    if before.contains(x) {
                    } else {
                        assert(x == h);
                        assert(*ks[it.index() as int] == h);
                    }
                }
                assert forall|x: u64| (exists|j: int|
                    0 <= j < it.index() + 1 && *ks[j] == x && self.entries@[x].owner@
                        == client@) implies r@.contains(x) by {
                    let j = choose|j: int|
                        0 <= j < it.index() + 1 && *ks[j] == x && self.entries@[x].owner@
                            == client@;
                    if j < it.index() {
                        assert(before.contains(x));
                        let i = choose|i: int| 0 <= i < before.len() && before[i] == x;
                        assert(r@[i] == x);
                    } else {
                        assert(x == h);
                        assert(same);
                        assert(r@[r@.len() - 1] == h);
                    }
                }
            }
        }
        proof {
            assert forall|x: u64|
                (self.entries@.contains_key(x) && self.entries@[x].owner@ == client@) implies r@.contains(
                x,
            ) by {
                assert(ks.unref().to_set().contains(x));
                assert(ks.unref().contains(x));
                let j = choose|j: int| 0 <= j < ks.unref().len() && ks.unref()[j] == x;
                assert(*ks[j] == x);
            }
            assert forall|x: u64| r@.contains(x) implies (self.entries@.contains_key(x)
                && self.entries@[x].owner@ == client@) by {
                let j = choose|j: int|
                    0 <= j < ks.len() && *ks[j] == x && self.entries@[x].owner@ == client@;
                assert(ks.unref()[j] == x);
                assert(ks.unref().contains(x));
                assert(ks.unref().to_set().contains(x));
            }
        }
        r
    }

    /// Removes every entry that `client` owns and hands back each removed
    /// handle with its object, each handle once; the other entries stay.
    pub fn remove_owned_by(&mut self, client: &str) -> (removed: Vec<(u64, V)>)
        ensures
            final(self).entries() == without_owner(old(self).entries(), client@),
            handles_of(removed@).no_duplicates(),
            picks_owned(handles_of(removed@), old(self).entries(), client@),
            forall|i: int|
                0 <= i < removed@.len() ==> #[trigger] removed@[i].1 == old(
                    self,
                ).values()[removed@[i].0],
    {
        let hs = self.handles_owned_by(client);
        let ghost old_entries = self.entries@;
        let mut removed: Vec<(u64, V)> = Vec::new();
        let n = hs.len();
        for i in 0..n
            invariant
                n == hs@.len(),
                hs@.no_duplicates(),
                forall|h: u64|
                    hs@.contains(h) <==> (old_entries.contains_key(h) && old_entries[h].owner@
                        == client@),
                self.entries@ == old_entries.remove_keys(hs@.subrange(0, i as int).to_set()),
                removed@.len() == i,
                forall|k: int|
                    0 <= k < i ==> (#[trigger] removed@[k]).0 == hs@[k] && removed@[k].1
                        == old_entries[hs@[k]].value,
        {
            let h = hs[i];
            proof {
                assert(hs@.contains(h));
                assert(!hs@.subrange(0, i as int).contains(h)) by {
                    if hs@.subrange(0, i as int).contains(h) {
                        let k = choose|k: int| 0 <= k < i && hs@.subrange(0, i as int)[k] == h;
                        assert(hs@[k] == hs@[i as int]);
                    }
                }
                assert(self.entries@.contains_key(h));
            }
            let e = self.entries.remove(&h).unwrap();
            removed.push((h, e.value));
            proof {
                let pre = hs@.subrange(0, i as int);
                assert(hs@.subrange(0, i + 1) =~= pre.push(h));
                assert forall|x: u64| #![auto] pre.push(h).contains(x) <==> (pre.contains(x) || x == h) by {
                    if pre.push(h).contains(x) {
                        let k = choose|k: int| 0 <= k < pre.push(h).len() && pre.push(h)[k] == x;
                        if k < pre.len() {
                            assert(pre[k] == x);
                        }
                    }
                    if pre.contains(x) {
                        let k = choose|k: int| 0 <= k < pre.len() && pre[k] == x;
                        assert(pre.push(h)[k] == x);
                    }
                    if x == h {
                        assert(pre.push(h)[pre.len() as int] == x);
                    }
                }
                assert(hs@.subrange(0, i + 1).to_set() =~= pre.to_set().insert(h));
                assert(self.entries@ =~= old_entries.remove_keys(
                    hs@.subrange(0, i + 1).to_set(),
                ));
            }
        }
        proof {
            assert(hs@.subrange(0, n as int) =~= hs@);
            assert(self.entries@ =~= without_owner(old_entries, client@)) by {
                assert forall|h: u64|
                    #![auto]
                    self.entries@.contains_key(h) <==> without_owner(
                        old_entries,
                        client@,
                    ).contains_key(h) by {
                    assert(hs@.to_set().contains(h) <==> hs@.contains(h));
                }
            }
            let ks = handles_of(removed@);
            assert(ks =~= hs@);
            assert forall|i: int| 0 <= i < removed@.len() implies #[trigger] removed@[i].1 == values_of(
                old_entries,
            )[removed@[i].0] by {
                assert(hs@.contains(hs@[i]));
            }
        }
        removed
    }
}

/// A query that a queryable received and that waits for its replies: the
/// client that owns the queryable, the queryable's handle, and the query.
pub struct InFlight<Q> {
    pub owner: String,
    pub handle: u64,
    pub query: Q,
}

/// An entry is selected by an optional owner and an optional queryable
/// handle: it must match each one that is given.
pub open spec fn selects<Q>(e: InFlight<Q>, owner: Option<Seq<char>>, handle: Option<u64>) -> bool {
    &&& (owner matches Some(o) ==> e.owner@ == o)
    &&& (handle matches Some(h) ==> e.handle == h)
}

/// The queries in flight, each under the id the server gave it.
pub struct InflightTable<Q> {
    ids: HandleCounter,
    entries: HashMap<u64, InFlight<Q>>,
}

/// The entries of `m` that the selection does not pick.
pub open spec fn unselected<Q>(
    m: Map<u64, InFlight<Q>>,
    owner: Option<Seq<char>>,
    handle: Option<u64>,
) -> Map<u64, InFlight<Q>> {
    m.restrict(m.dom().filter(|id: u64| !selects(m[id], owner, handle)))
}

impl<Q> InflightTable<Q> {
    /// The queries in flight.
    pub closed spec fn entries(&self) -> Map<u64, InFlight<Q>> {
        self.entries@
    }

    /// The id the next admitted query receives.
    pub closed spec fn next_id(&self) -> u64 {
        self.ids.next()
    }

    pub fn new() -> (t: Self)
        ensures
            t.entries() == Map::<u64, InFlight<Q>>::empty(),
            t.next_id() == 1,
    {
        InflightTable { ids: HandleCounter::new(), entries: HashMap::new() }
    }

    /// Gives `query`, received by the queryable `handle` of `owner`, the next
    /// query id and keeps it until it is answered or its owner goes away.
    pub fn register_query(&mut self, owner: String, handle: u64, query: Q) -> (id: u64)
        ensures
            id == old(self).next_id(),
            final(self).next_id() == vstd::wrapping::u64_specs::wrapping_add(old(self).next_id(), 1),
            final(self).entries() == old(self).entries().insert(
                id,
                InFlight { owner, handle, query },
            ),
    {
        let id = self.ids.alloc_handle();
        let _ = self.entries.insert(id, InFlight { owner, handle, query });
        id
    }

    /// The query in flight under `id`, if any.
    pub fn get(&self, id: u64) -> (r: Option<&InFlight<Q>>)
        ensures
            self.entries().contains_key(id) ==> r == Some(&self.entries()[id]),
            !self.entries().contains_key(id) ==> r is None,
    {
        self.entries.get(&id)
    }

    /// The query that `client` may answer through its queryable `handle`:
    /// it must be in flight, belong to `client` and have come through
    /// `handle`.
    pub fn check_reply(&self, id: u64, client: &str, handle: u64) -> (r: Result<&Q, AccessError>)
        ensures
            !self.entries().contains_key(id) ==> r == Err::<&Q, AccessError>(AccessError::NotFound),
            self.entries().contains_key(id) && self.entries()[id].owner@ != client@ ==> r == Err::<
                &Q,
                AccessError,
            >(AccessError::NotOwner),
            self.entries().contains_key(id) && self.entries()[id].owner@ == client@
                && self.entries()[id].handle != handle ==> r == Err::<&Q, AccessError>(
                AccessError::WrongQueryable,
            ),
            self.entries().contains_key(id) && self.entries()[id].owner@ == client@
                && self.entries()[id].handle == handle ==> r == Ok::<&Q, AccessError>(
                &self.entries()[id].query,
            ),
    {
        match self.entries.get(&id) {
            None => Err(AccessError::NotFound),
            Some(e) => {
                match ensure_owner(client, e.owner.as_str()) {
                    Err(err) => Err(err),
                    Ok(()) => {
                        if e.handle != handle {
                            Err(AccessError::WrongQueryable)
                        } else {
                            Ok(&e.query)
                        }
                    },
                }
            },
        }
    }

    /// The ids of the entries that the selection picks, each once.
    fn ids_selected(&self, owner: Option<&str>, handle: Option<u64>) -> (r: Vec<u64>)
        ensures
            r@.no_duplicates(),
            forall|id: u64|
                r@.contains(id) <==> (self.entries().contains_key(id) && selects(
                    self.entries()[id],
                    match owner {
                        Some(o) => Some(o@),
                        None => None,
                    },
                    handle,
                )),
    {
        let ghost sel_owner: Option<Seq<char>> = match owner {
            Some(o) => Some(o@),
            None => None,
        };
        let mut r: Vec<u64> = Vec::new();
        let ghost ks = spec_keys_iter(&self.entries).remaining();
        proof {
            assert(ks.unref().to_set() == self.entries@.dom());
        }
        for k in it: self.entries.keys()
            invariant
                it.seq() == ks,
                ks.unref().to_set() == self.entries@.dom(),
                ks.no_duplicates(),
                r@.no_duplicates(),
                sel_owner == match owner {
                    Some(o) => Some(o@),
                    None => None::<Seq<char>>,
                },
                forall|x: u64|
                    r@.contains(x) <==> (exists|j: int|
                        0 <= j < it.index() && *ks[j] == x && selects(
                            self.entries@[x],
                            sel_owner,
                            handle,
                        )),
        {
            let ghost before = r@;
            let id = *k;
            proof {
                assert(ks.unref()[it.index()] == id);
                assert(ks.unref().contains(id));
                assert(self.entries@.dom().contains(id));
            }
            let e = self.entries.get(&id).unwrap();
            let owner_ok = match owner {
                Some(o) => same_chars(e.owner.as_str(), o),
                None => true,
            };
            let handle_ok = match handle {
                Some(h) => e.handle == h,
                None => true,
            };
            let picked = owner_ok && handle_ok;
            assert(picked == selects(self.entries@[id], sel_owner, handle));
            if picked {
                proof {
                    if before.contains(id) {
                        let j = choose|j: int|
                            0 <= j < it.index() && *ks[j] == id && selects(
                                self.entries@[id],
                                sel_owner,
                                handle,
                            );
                        assert(ks[j] == ks[it.index() as int]);
                    }
                }
                r.push(id);
            }
            proof {
                assert forall|x: u64| r@.contains(x) implies (exists|j: int|
                    0 <= j < it.index() + 1 && *ks[j] == x && selects(
                        self.entries@[x],
                        sel_owner,
                        handle,
                    )) by {
                    if before.contains(x) {
                    } else {
                        assert(x == id);
                        assert(*ks[it.index() as int] == id);
                    }
                }
                assert forall|x: u64| (exists|j: int|
                    0 <= j < it.index() + 1 && *ks[j] == x && selects(
                        self.entries@[x],
                        sel_owner,
                        handle,
                    )) implies r@.contains(x) by {
                    let j = choose|j: int|
                        0 <= j < it.index() + 1 && *ks[j] == x && selects(
                            self.entries@[x],
                            sel_owner,
                            handle,
                        );
                    if j < it.index() {
                        assert(before.contains(x));
                        let i = choose|i: int| 0 <= i < before.len() && before[i] == x;
                        assert(r@[i] == x);
                    } else {
                        assert(x == id);
                        assert(r@[r@.len() - 1] == id);
                    }
                }
            }
        }
        proof {
            assert forall|x: u64|
                (self.entries@.contains_key(x) && selects(
                    self.entries@[x],
                    sel_owner,
                    handle,
                )) implies r@.contains(x) by {
                assert(ks.unref().to_set().contains(x));
                assert(ks.unref().contains(x));
                let j = choose|j: int| 0 <= j < ks.unref().len() && ks.unref()[j] == x;
                assert(*ks[j] == x);
            }
            assert forall|x: u64| r@.contains(x) implies (self.entries@.contains_key(x)
                && selects(self.entries@[x], sel_owner, handle)) by {
                let j = choose|j: int|
                    0 <= j < ks.len() && *ks[j] == x && selects(
                        self.entries@[x],
                        sel_owner,
                        handle,
                    );
                assert(ks.unref()[j] == x);
                assert(ks.unref().contains(x));
                assert(ks.unref().to_set().contains(x));
            }
        }
        r
    }

    /// Drops every entry that the selection picks; the others stay.
    fn remove_selected(&mut self, owner: Option<&str>, handle: Option<u64>)
        ensures
            final(self).next_id() == old(self).next_id(),
            final(self).entries() == unselected(
                old(self).entries(),
                match owner {
                    Some(o) => Some(o@),
                    None => None,
                },
                handle,
            ),
    {
        let ghost sel_owner: Option<Seq<char>> = match owner {
            Some(o) => Some(o@),
            None => None,
        };
        let ids = self.ids_selected(owner, handle);
        let ghost old_entries = self.entries@;
        let n = ids.len();
        for i in 0..n
            invariant
                n == ids@.len(),
                ids@.no_duplicates(),
                forall|x: u64|
                    ids@.contains(x) <==> (old_entries.contains_key(x) && selects(
                        old_entries[x],
                        sel_owner,
                        handle,
                    )),
                self.entries@ == old_entries.remove_keys(ids@.subrange(0, i as int).to_set()),
                self.ids.next() == old(self).ids.next(),
        {
            let id = ids[i];
            let pre = Ghost(ids@.subrange(0, i as int));
            proof {
                assert(ids@.contains(id));
                assert(!pre@.contains(id)) by {
                    if pre@.contains(id) {
                        let k = choose|k: int| 0 <= k < i && pre@[k] == id;
                        assert(ids@[k] == ids@[i as int]);
                    }
                }
            }
            let _ = self.entries.remove(&id);
            proof {
                let pre = pre@;
                assert(ids@.subrange(0, i + 1) =~= pre.push(id));
                assert forall|x: u64| #![auto] pre.push(id).contains(x) <==> (pre.contains(x) || x == id) by {
                    if pre.push(id).contains(x) {
                        let k = choose|k: int| 0 <= k < pre.push(id).len() && pre.push(id)[k] == x;
                        if k < pre.len() {
                            assert(pre[k] == x);
                        }
                    }
                    if pre.contains(x) {
                        let k = choose|k: int| 0 <= k < pre.len() && pre[k] == x;
                        assert(pre.push(id)[k] == x);
                    }
                    if x == id {
                        assert(pre.push(id)[pre.len() as int] == x);
                    }
                }
                assert(ids@.subrange(0, i + 1).to_set() =~= pre.to_set().insert(id));
                assert(self.entries@ =~= old_entries.remove_keys(ids@.subrange(0, i + 1).to_set()));
            }
        }
        proof {
            assert(ids@.subrange(0, n as int) =~= ids@);
            assert(self.entries@ =~= unselected(old_entries, sel_owner, handle)) by {
                assert forall|x: u64|
                    #![auto]
                    self.entries@.contains_key(x) <==> unselected(
                        old_entries,
                        sel_owner,
                        handle,
                    ).contains_key(x) by {
                    assert(ids@.to_set().contains(x) <==> ids@.contains(x));
                }
            }
        }
    }

    /// Drops the queries of every queryable that `client` owns.
    pub fn remove_owned_by(&mut self, client: &str)
        ensures
            final(self).next_id() == old(self).next_id(),
            final(self).entries() == unselected(old(self).entries(), Some(client@), None),
    {
        self.remove_selected(Some(client), None)
    }

    /// Drops the queries that came through the queryable `handle`.
    pub fn remove_for_handle(&mut self, handle: u64)
        ensures
            final(self).next_id() == old(self).next_id(),
            final(self).entries() == unselected(old(self).entries(), None, Some(handle)),
    {
        self.remove_selected(None, Some(handle))
    }
}

/// What leaving clients leave behind: the objects to undeclare, each with
/// the handle it was registered under.
pub struct Cleanup<P, S, B, R> {
    pub publishers: Vec<(u64, P)>,
    pub subscribers: Vec<(u64, S)>,
    pub queryables: Vec<(u64, B)>,
    pub queriers: Vec<(u64, R)>,
}

/// Everything the server keeps per client: publishers `P`, subscribers `S`,
/// queryables `B`, queriers `R` and the queries `Q` in flight.
pub struct PluginRegistry<P, S, B, R, Q> {
    pub handles: HandleCounter,
    pub publishers: HandleTable<P>,
    pub subscribers: HandleTable<S>,
    pub queryables: HandleTable<B>,
    pub queriers: HandleTable<R>,
    pub inflight: InflightTable<Q>,
}

impl<P, S, B, R, Q> PluginRegistry<P, S, B, R, Q> {
    pub fn new() -> (r: Self)
        ensures
            r.handles.next() == 1,
            r.publishers.entries() == Map::<u64, Owned<P>>::empty(),
            r.subscribers.entries() == Map::<u64, Owned<S>>::empty(),
            r.queryables.entries() == Map::<u64, Owned<B>>::empty(),
            r.queriers.entries() == Map::<u64, Owned<R>>::empty(),
            r.inflight.entries() == Map::<u64, InFlight<Q>>::empty(),
            r.inflight.next_id() == 1,
    {
        PluginRegistry {
            handles: HandleCounter::new(),
            publishers: HandleTable::new(),
            subscribers: HandleTable::new(),
            queryables: HandleTable::new(),
            queriers: HandleTable::new(),
            inflight: InflightTable::new(),
        }
    }

    /// Removes everything that `client` declared and every query in flight
    /// on its queryables, and hands back the objects to undeclare.
    pub fn cleanup_client(&mut self, client: &str) -> (c: Cleanup<P, S, B, R>)
        ensures
            final(self).handles == old(self).handles,
            final(self).inflight.next_id() == old(self).inflight.next_id(),
            final(self).publishers.entries() == without_owner(
                old(self).publishers.entries(),
                client@,
            ),
            final(self).subscribers.entries() == without_owner(
                old(self).subscribers.entries(),
                client@,
            ),
            final(self).queryables.entries() == without_owner(
                old(self).queryables.entries(),
                client@,
            ),
            final(self).queriers.entries() == without_owner(old(self).queriers.entries(), client@),
            final(self).inflight.entries() == unselected(
                old(self).inflight.entries(),
                Some(client@),
                None,
            ),
            picks_owned(handles_of(c.publishers@), old(self).publishers.entries(), client@),
            handles_of(c.publishers@).no_duplicates(),
            forall|i: int|
                0 <= i < c.publishers@.len() ==> #[trigger] c.publishers@[i].1 == old(
                    self,
                ).publishers.values()[c.publishers@[i].0],
            picks_owned(handles_of(c.subscribers@), old(self).subscribers.entries(), client@),
            handles_of(c.subscribers@).no_duplicates(),
            forall|i: int|
                0 <= i < c.subscribers@.len() ==> #[trigger] c.subscribers@[i].1 == old(
                    self,
                ).subscribers.values()[c.subscribers@[i].0],
            picks_owned(handles_of(c.queryables@), old(self).queryables.entries(), client@),
            handles_of(c.queryables@).no_duplicates(),
            forall|i: int|
                0 <= i < c.queryables@.len() ==> #[trigger] c.queryables@[i].1 == old(
                    self,
                ).queryables.values()[c.queryables@[i].0],
            picks_owned(handles_of(c.queriers@), old(self).queriers.entries(), client@),
            handles_of(c.queriers@).no_duplicates(),
            forall|i: int|
                0 <= i < c.queriers@.len() ==> #[trigger] c.queriers@[i].1 == old(
                    self,
                ).queriers.values()[c.queriers@[i].0],
    {
        let publishers = self.publishers.remove_owned_by(client);
        let subscribers = self.subscribers.remove_owned_by(client);
        let queryables = self.queryables.remove_owned_by(client);
        let queriers = self.queriers.remove_owned_by(client);
        self.inflight.remove_owned_by(client);
        Cleanup { publishers, subscribers, queryables, queriers }
    }

    /// Undeclares the queryable `handle` for `client`: the entry leaves the
    /// table whoever owns it; when `client` owns it, the queries in flight
    /// on it are dropped too and the queryable is handed back.
    pub fn undeclare_queryable(&mut self, handle: u64, client: &str) -> (r: Result<B, AccessError>)
        ensures
            final(self).handles == old(self).handles,
            final(self).publishers == old(self).publishers,
            final(self).subscribers == old(self).subscribers,
            final(self).queriers == old(self).queriers,
            final(self).queryables.entries() == old(self).queryables.entries().remove(handle),
            final(self).inflight.next_id() == old(self).inflight.next_id(),
            !old(self).queryables.entries().contains_key(handle) ==> r == Err::<B, AccessError>(
                AccessError::NotFound,
            ),
            old(self).queryables.entries().contains_key(handle)
                && old(self).queryables.owners()[handle] != client@ ==> r == Err::<
                B,
                AccessError,
            >(AccessError::NotOwner),
            old(self).queryables.entries().contains_key(handle)
                && old(self).queryables.owners()[handle] == client@ ==> r == Ok::<B, AccessError>(
                old(self).queryables.values()[handle],
            ),
            r is Ok ==> final(self).inflight.entries() == unselected(
                old(self).inflight.entries(),
                None,
                Some(handle),
            ),
            r is Err ==> final(self).inflight.entries() == old(self).inflight.entries(),
    {
        let r = self.queryables.remove_owned(handle, client);
        if r.is_ok() {
            self.inflight.remove_for_handle(handle);
        }
        r
    }
}

/// After a client's cleanup none of the objects and none of the queries in
/// flight that remain belongs to it.
pub proof fn lemma_cleanup_leaves_nothing_owned<V, Q>(
    before: Map<u64, Owned<V>>,
    inflight_before: Map<u64, InFlight<Q>>,
    client: Seq<char>,
    h: u64,
    id: u64,
)
    ensures
        without_owner(before, client).contains_key(h) ==> without_owner(before, client)[h].owner@
            != client,
        without_owner(before, client).contains_key(h) <==> (before.contains_key(h)
            && before[h].owner@ != client),
        without_owner(before, client).contains_key(h) ==> without_owner(before, client)[h]
            == before[h],
        unselected(inflight_before, Some(client), None).contains_key(id) ==> unselected(
            inflight_before,
            Some(client),
            None,
        )[id].owner@ != client,
        unselected(inflight_before, Some(client), None).contains_key(id) ==> unselected(
            inflight_before,
            Some(client),
            None,
        )[id] == inflight_before[id],
{
}

} // verus!
