//! The ESP-NOW routing table: FIPS node addresses mapped to the MAC addresses
//! that reach them, with liveness status and least-recently-seen eviction.

use vstd::prelude::*;

use crate::time::Instant;

verus! {

broadcast use vstd::seq_lib::group_to_multiset_ensures;

/// Maximum number of peers in the routing table.
pub const MAX_PEERS: usize = 20;

/// A FIPS node address (16 bytes derived from the node's public key).
pub type NodeAddr = [u8; 16];

/// An ESP-NOW (802.11) MAC address.
#[derive(Debug, Clone, Copy, PartialEq, Eq)]
pub struct MacAddress(pub [u8; 6]);

/// Liveness of a peer.
#[derive(Debug, Clone, Copy, PartialEq, Eq, Structural)]
pub enum PeerStatus {
    /// Active and reachable.
    Active,
    /// Suspected to be down.
    Suspect,
    /// Confirmed to be down.
    Dead,
}

/// Errors of peer-table operations.
#[derive(Debug, Clone, Copy, PartialEq, Eq, Structural)]
pub enum PeerTableError {
    /// No entry for the node address.
    PeerNotFound,
    /// Every slot is taken.
    TableFull,
    /// The node address is malformed.
    InvalidNodeAddr,
}

/// One routing entry.
#[derive(Debug, Clone, Copy, PartialEq, Eq)]
pub struct PeerEntry {
    pub node_addr: NodeAddr,
    pub mac_addr: MacAddress,
    /// When the peer was last heard from, for least-recently-seen eviction.
    pub last_seen: Instant,
    pub status: PeerStatus,
}

/// Counts of the table's entries by status.
#[derive(Debug, Clone, Copy, PartialEq, Eq, Structural)]
pub struct PeerTableStats {
    pub total: usize,
    pub active: usize,
    pub suspect: usize,
    pub dead: usize,
    pub capacity: usize,
}

#[verifier::external_type_specification]
#[verifier::external_body]
#[verifier::reject_recursive_types(T)]
pub struct ExHeaplessVec<T, const N: usize>(heapless::Vec<T, N>);

/// The entries a fixed-capacity vector holds, in order.
pub uninterp spec fn peer_entries(v: heapless::Vec<PeerEntry, MAX_PEERS>) -> Seq<PeerEntry>;

/// `heapless::Vec::new`: an empty vector.
#[verifier::external_body]
fn slots_new() -> (r: heapless::Vec<PeerEntry, MAX_PEERS>)
    ensures
        peer_entries(r) == Seq::<PeerEntry>::empty(),
{
    heapless::Vec::new()
}

/// `heapless::Vec::as_slice`: the entries in order; a vector never holds more
/// than its capacity.
#[verifier::external_body]
fn slots_as_slice(v: &heapless::Vec<PeerEntry, MAX_PEERS>) -> (r: &[PeerEntry])
    ensures
        r@ == peer_entries(*v),
        r@.len() <= MAX_PEERS,
{
    v.as_slice()
}

/// `heapless::Vec::push`: appends below capacity, hands the item back when full.
#[verifier::external_body]
fn slots_push(v: &mut heapless::Vec<PeerEntry, MAX_PEERS>, item: PeerEntry) -> (r: Result<(), PeerEntry>)
    ensures
        MAX_PEERS > peer_entries(*old(v)).len() ==> r is Ok && peer_entries(*final(v)) == peer_entries(
            *old(v),
        ).push(item),
        peer_entries(*old(v)).len() >= MAX_PEERS ==> r is Err && peer_entries(*final(v)) == peer_entries(*old(v)),
{
    v.push(item)
}

/// `heapless::Vec::remove`: takes out the entry at `index`, shifting the rest down.
#[verifier::external_body]
fn slots_remove(v: &mut heapless::Vec<PeerEntry, MAX_PEERS>, index: usize) -> (r: PeerEntry)
    requires
        index < peer_entries(*old(v)).len(),
    ensures
        r == peer_entries(*old(v))[index as int],
        peer_entries(*final(v)) == peer_entries(*old(v)).remove(index as int),
{
    v.remove(index)
}

/// Index assignment through the vector's `DerefMut` to a slice.
#[verifier::external_body]
fn slots_set(v: &mut heapless::Vec<PeerEntry, MAX_PEERS>, index: usize, item: PeerEntry)
    requires
        index < peer_entries(*old(v)).len(),
    ensures
        peer_entries(*final(v)) == peer_entries(*old(v)).update(index as int, item),
{
    v[index] = item;
}

/// `heapless::Vec::clear`: removes every entry.
#[verifier::external_body]
fn slots_clear(v: &mut heapless::Vec<PeerEntry, MAX_PEERS>)
    ensures
        peer_entries(*final(v)) == Seq::<PeerEntry>::empty(),
{
    v.clear()
}

/// No two entries share a node address.
pub open spec fn addrs_unique(s: Seq<PeerEntry>) -> bool {
    forall|i: int, j: int| 0 <= i < j < s.len() ==> s[i].node_addr@ != s[j].node_addr@
}

/// `i` is the first entry for `addr`.
pub open spec fn is_first_for(s: Seq<PeerEntry>, addr: Seq<u8>, i: int) -> bool {
    &&& 0 <= i < s.len()
    &&& s[i].node_addr@ == addr
    &&& forall|j: int| 0 <= j < i ==> s[j].node_addr@ != addr
}

/// The position of the entry for `addr`, if any.
pub open spec fn position_of(s: Seq<PeerEntry>, addr: Seq<u8>) -> Option<int> {
    if exists|i: int| is_first_for(s, addr, i) {
        Some(choose|i: int| is_first_for(s, addr, i))
    } else {
        None
    }
}

/// A fresh active entry seen at `now`.
pub open spec fn active_entry(node_addr: NodeAddr, mac_addr: MacAddress, now: Instant) -> PeerEntry {
    PeerEntry { node_addr, mac_addr, last_seen: now, status: PeerStatus::Active }
}

/// Adding or refreshing a peer: an existing entry takes the new MAC, is seen
/// at `now` and becomes active; otherwise a new active entry is appended
/// while there is room.
pub open spec fn spec_add_or_update(s: Seq<PeerEntry>, node_addr: NodeAddr, mac_addr: MacAddress, now: Instant) -> (
    Seq<PeerEntry>,
    Result<(), PeerTableError>,
) {
    match position_of(s, node_addr@) {
        Some(i) => (s.update(i, active_entry(s[i].node_addr, mac_addr, now)), Ok(())),
        None => if s.len() < MAX_PEERS {
            (s.push(active_entry(node_addr, mac_addr, now)), Ok(()))
        } else {
            (s, Err(PeerTableError::TableFull))
        },
    }
}

/// The entry for `addr`.
pub open spec fn spec_get(s: Seq<PeerEntry>, addr: Seq<u8>) -> Result<PeerEntry, PeerTableError> {
    match position_of(s, addr) {
        Some(i) => Ok(s[i]),
        None => Err(PeerTableError::PeerNotFound),
    }
}

/// Removing the entry for `addr`.
pub open spec fn spec_remove(s: Seq<PeerEntry>, addr: Seq<u8>) -> (Seq<PeerEntry>, Result<(), PeerTableError>) {
    match position_of(s, addr) {
        Some(i) => (s.remove(i), Ok(())),
        None => (s, Err(PeerTableError::PeerNotFound)),
    }
}

/// Changing the entry for `addr` with `f`.
pub open spec fn spec_modify(s: Seq<PeerEntry>, addr: Seq<u8>, e: PeerEntry) -> (Seq<PeerEntry>, Result<(), PeerTableError>) {
    match position_of(s, addr) {
        Some(i) => (s.update(i, e), Ok(())),
        None => (s, Err(PeerTableError::PeerNotFound)),
    }
}

/// Entries whose status is `status`.
pub open spec fn with_status(status: PeerStatus) -> spec_fn(PeerEntry) -> bool {
    |e: PeerEntry| e.status == status
}

/// Where an entry last seen at `t` goes in entries ordered by last-seen time:
/// after every entry seen no later.
pub open spec fn insert_pos(s: Seq<PeerEntry>, t: u64) -> nat
    decreases s.len(),
{
    if s.len() == 0 {
        0
    } else if s[0].last_seen.micros > t {
        0
    } else {
        1 + insert_pos(s.drop_first(), t)
    }
}

/// The entries stably ordered by last-seen time, oldest first.
pub open spec fn sort_by_last_seen(s: Seq<PeerEntry>) -> Seq<PeerEntry>
    decreases s.len(),
{
    if s.len() == 0 {
        s
    } else {
        let rest = sort_by_last_seen(s.drop_last());
        rest.insert(insert_pos(rest, s.last().last_seen.micros) as int, s.last())
    }
}

/// Ordered by last-seen time, oldest first.
pub open spec fn oldest_first(s: Seq<PeerEntry>) -> bool {
    forall|i: int, j: int| 0 <= i <= j < s.len() ==> s[i].last_seen.micros <= s[j].last_seen.micros
}

/// Least-recently-seen eviction: a full table drops the oldest entry and
/// keeps the rest ordered oldest first; a table with room is unchanged.
pub open spec fn spec_evict(s: Seq<PeerEntry>) -> Seq<PeerEntry> {
    if s.len() < MAX_PEERS {
        s
    } else {
        sort_by_last_seen(s).drop_first()
    }
}

/// The routing table.
pub struct PeerTable {
    peers: heapless::Vec<PeerEntry, MAX_PEERS>,
}

impl View for PeerTable {
    type V = Seq<PeerEntry>;

    closed spec fn view(&self) -> Seq<PeerEntry> {
        peer_entries(self.peers)
    }
}

proof fn lemma_first_exists(s: Seq<PeerEntry>, addr: Seq<u8>, j: int)
    requires
        0 <= j < s.len(),
        s[j].node_addr@ == addr,
    ensures
        exists|i: int| is_first_for(s, addr, i),
    decreases j,
{
    if forall|k: int| 0 <= k < j ==> s[k].node_addr@ != addr {
        assert(is_first_for(s, addr, j));
    } else {
        let k = choose|k: int| 0 <= k < j && s[k].node_addr@ == addr;
        lemma_first_exists(s, addr, k);
    }
}

/// The position of `addr` is its first entry, and there is none only when no
/// entry has it.
proof fn lemma_position(s: Seq<PeerEntry>, addr: Seq<u8>)
    ensures
        position_of(s, addr) matches Some(i) ==> is_first_for(s, addr, i),
        position_of(s, addr) is None <==> forall|j: int| 0 <= j < s.len() ==> s[j].node_addr@ != addr,
        forall|i: int| is_first_for(s, addr, i) ==> position_of(s, addr) == Some(i),
{
    if exists|j: int| 0 <= j < s.len() && s[j].node_addr@ == addr {
        let j = choose|j: int| 0 <= j < s.len() && s[j].node_addr@ == addr;
        lemma_first_exists(s, addr, j);
    }
    assert forall|i: int| is_first_for(s, addr, i) implies position_of(s, addr) == Some(i) by {
        let k = choose|k: int| is_first_for(s, addr, k);
        if k < i {
            assert(s[k].node_addr@ != addr);
        }
        if i < k {
            assert(s[i].node_addr@ != addr);
        }
    }
}

/// In unique entries, any entry for `addr` is its position.
proof fn lemma_unique_position(s: Seq<PeerEntry>, addr: Seq<u8>, i: int)
    requires
        addrs_unique(s),
        0 <= i < s.len(),
        s[i].node_addr@ == addr,
    ensures
        position_of(s, addr) == Some(i),
{
    assert(is_first_for(s, addr, i));
    lemma_position(s, addr);
}

fn addr_matches(a: &NodeAddr, b: &NodeAddr) -> (r: bool)
    ensures
        r == (a@ == b@),
{
    let mut i: usize = 0;
    while i < 16
        invariant
            0 <= i <= 16,
            a@.len() == 16,
            b@.len() == 16,
            forall|j: int| 0 <= j < i ==> a@[j] == b@[j],
        decreases 16 - i,
    {
        if a[i] != b[i] {
            assert(a@[i as int] != b@[i as int]);
            return false;
        }
        i = i + 1;
    }
    assert(a@ =~= b@);
    true
}

/// The index of the first entry for `addr` in `s`.
fn find_index(s: &[PeerEntry], addr: &NodeAddr) -> (r: Option<usize>)
    ensures
        r matches Some(i) ==> position_of(s@, addr@) == Some(i as int),
        r is None ==> position_of(s@, addr@) is None,
{
    let mut i: usize = 0;
    while i < s.len()
        invariant
            0 <= i <= s@.len(),
            forall|j: int| 0 <= j < i ==> s@[j].node_addr@ != addr@,
        decreases s.len() - i,
    {
        if addr_matches(&s[i].node_addr, addr) {
            proof {
                assert(is_first_for(s@, addr@, i as int));
                lemma_position(s@, addr@);
            }
            return Some(i);
        }
        i = i + 1;
    }
    proof {
        lemma_position(s@, addr@);
    }
    None
}

/// `insert_pos` counts the entries at the front seen no later than `t`.
proof fn lemma_insert_pos_skip(s: Seq<PeerEntry>, t: u64, p: int)
    requires
        0 <= p <= s.len(),
        forall|j: int| 0 <= j < p ==> s[j].last_seen.micros <= t,
    ensures
        insert_pos(s, t) == p + insert_pos(s.skip(p), t),
    decreases p,
{
    if p > 0 {
        lemma_insert_pos_skip(s.drop_first(), t, p - 1);
        assert(s.drop_first().skip(p - 1) =~= s.skip(p));
    } else {
        assert(s.skip(0) =~= s);
    }
}

/// In entries ordered oldest first, everything before the insertion point
/// was seen no later than `t` and everything after it later.
proof fn lemma_insert_pos_splits(s: Seq<PeerEntry>, t: u64)
    requires
        oldest_first(s),
    ensures
        insert_pos(s, t) <= s.len(),
        forall|j: int| 0 <= j < insert_pos(s, t) ==> s[j].last_seen.micros <= t,
        forall|j: int| insert_pos(s, t) <= j < s.len() ==> s[j].last_seen.micros > t,
    decreases s.len(),
{
    if s.len() > 0 {
        if s[0].last_seen.micros > t {
        } else {
            lemma_insert_pos_splits(s.drop_first(), t);
            assert forall|j: int| 0 <= j < insert_pos(s, t) implies s[j].last_seen.micros <= t by {
                if j > 0 {
                    assert(s[j] == s.drop_first()[j - 1]);
                }
            }
            assert forall|j: int| insert_pos(s, t) <= j < s.len() implies s[j].last_seen.micros > t by {
                assert(s[j] == s.drop_first()[j - 1]);
            }
        }
    }
}

/// Sorting by last-seen time orders the entries oldest first, keeps exactly
/// the same entries, and keeps node addresses unique.
pub proof fn lemma_sort_by_last_seen(s: Seq<PeerEntry>)
    ensures
        oldest_first(sort_by_last_seen(s)),
        sort_by_last_seen(s).to_multiset() == s.to_multiset(),
        sort_by_last_seen(s).len() == s.len(),
        addrs_unique(s) ==> addrs_unique(sort_by_last_seen(s)),
    decreases s.len(),
{
    if s.len() > 0 {
        let init = s.drop_last();
        let e = s.last();
        let rest = sort_by_last_seen(init);
        lemma_sort_by_last_seen(init);
        let t = e.last_seen.micros;
        lemma_insert_pos_splits(rest, t);
        let p = insert_pos(rest, t) as int;
        let r = rest.insert(p, e);
        assert(r == sort_by_last_seen(s));
        assert(s =~= init.push(e));
        assert forall|i: int, j: int| 0 <= i <= j < r.len() implies r[i].last_seen.micros
            <= r[j].last_seen.micros by {
            if i < p && j < p {
                assert(r[i] == rest[i] && r[j] == rest[j]);
            } else if i < p && j == p {
                assert(r[i] == rest[i]);
            } else if i < p {
                assert(r[i] == rest[i] && r[j] == rest[j - 1]);
            } else if i == p && j > p {
                assert(r[j] == rest[j - 1]);
            } else if i > p {
                assert(r[i] == rest[i - 1] && r[j] == rest[j - 1]);
            }
        }
        if addrs_unique(s) {
            assert(addrs_unique(init));
            assert forall|k: int| 0 <= k < rest.len() implies rest[k].node_addr@ != e.node_addr@ by {
                assert(rest.contains(rest[k]));
                assert(rest.to_multiset().count(rest[k]) > 0);
                assert(init.contains(rest[k]));
                let m = choose|m: int| 0 <= m < init.len() && init[m] == rest[k];
                assert(s[m] == init[m]);
                assert(s[s.len() - 1] == e);
            }
            assert forall|i: int, j: int| 0 <= i < j < r.len() implies r[i].node_addr@ != r[j].node_addr@ by {
                if i < p && j < p {
                    assert(r[i] == rest[i] && r[j] == rest[j]);
                } else if i < p && j == p {
                    assert(r[i] == rest[i]);
                } else if i < p {
                    assert(r[i] == rest[i] && r[j] == rest[j - 1]);
                } else if i == p {
                    assert(r[j] == rest[j - 1]);
                } else {
                    assert(r[i] == rest[i - 1] && r[j] == rest[j - 1]);
                }
            }
        }
    }
}

/// `s` stably ordered oldest first.
fn sorted_by_last_seen(s: &[PeerEntry]) -> (r: Vec<PeerEntry>)
    ensures
        r@ == sort_by_last_seen(s@),
{
    let mut out: Vec<PeerEntry> = Vec::new();
    let mut i: usize = 0;
    while i < s.len()
        invariant
            0 <= i <= s@.len(),
            out@ == sort_by_last_seen(s@.take(i as int)),
        decreases s.len() - i,
    {
        let e = s[i];
        let t = e.last_seen.micros;
        let mut p: usize = 0;
        while p < out.len() && out[p].last_seen.micros <= t
            invariant
                0 <= p <= out@.len(),
                forall|j: int| 0 <= j < p ==> out@[j].last_seen.micros <= t,
            decreases out.len() - p,
        {
            p = p + 1;
        }
        proof {
            lemma_insert_pos_skip(out@, t, p as int);
            if p < out.len() {
                assert(out@.skip(p as int)[0] == out@[p as int]);
            }
            assert(s@.take(i + 1).drop_last() =~= s@.take(i as int));
            assert(s@.take(i + 1).last() == e);
        }
        out.insert(p, e);
        i = i + 1;
    }
    assert(s@.take(s@.len() as int) =~= s@);
    out
}

impl PeerTable {
    #[verifier::type_invariant]
    spec fn unique_addrs(self) -> bool {
        addrs_unique(peer_entries(self.peers))
    }

    /// Moves the entries out, leaving the table empty until they are put back.
    fn take_slots(&mut self) -> (v: heapless::Vec<PeerEntry, MAX_PEERS>)
        ensures
            peer_entries(v) == old(self)@,
            final(self)@ == Seq::<PeerEntry>::empty(),
    {
        let mut v = slots_new();
        std::mem::swap(&mut v, &mut self.peers);
        v
    }

    /// An empty table.
    pub fn new() -> (t: Self)
        ensures
            t@ == Seq::<PeerEntry>::empty(),
    {
        PeerTable { peers: slots_new() }
    }

    /// Adds a peer, or refreshes the existing entry for its node address.
    pub fn add_or_update_peer(&mut self, node_addr: NodeAddr, mac_addr: MacAddress, now: Instant) -> (r: Result<
        (),
        PeerTableError,
    >)
        ensures
            (final(self)@, r) == spec_add_or_update(old(self)@, node_addr, mac_addr, now),
    {
        proof {
            use_type_invariant(&*self);
        }
        let found = find_index(slots_as_slice(&self.peers), &node_addr);
        match found {
            Some(pos) => {
                let existing = slots_as_slice(&self.peers)[pos].node_addr;
                let ghost before = self@;
                let entry = PeerEntry { node_addr: existing, mac_addr, last_seen: now, status: PeerStatus::Active };
                proof {
                    assert(entry == active_entry(before[pos as int].node_addr, mac_addr, now));
                    let after = before.update(pos as int, entry);
                    assert(addrs_unique(after)) by {
                        assert forall|i: int, j: int| 0 <= i < j < after.len() implies after[i].node_addr@
                            != after[j].node_addr@ by {
                            assert(before[i].node_addr@ != before[j].node_addr@);
                        }
                    }
                }
                let mut slots = self.take_slots();
                slots_set(&mut slots, pos, entry);
                self.peers = slots;
                Ok(())
            },
            None => {
                let ghost before = self@;
                let entry = PeerEntry { node_addr, mac_addr, last_seen: now, status: PeerStatus::Active };
                proof {
                    lemma_position(before, node_addr@);
                    let after = before.push(entry);
                    assert(addrs_unique(after)) by {
                        assert forall|i: int, j: int| 0 <= i < j < after.len() implies after[i].node_addr@
                            != after[j].node_addr@ by {
                            if j < before.len() {
                                assert(before[i].node_addr@ != before[j].node_addr@);
                            } else {
                                assert(before[i].node_addr@ != node_addr@);
                            }
                        }
                    }
                }
                let mut slots = self.take_slots();
                let pushed = slots_push(&mut slots, entry);
                self.peers = slots;
                match pushed {
                    Ok(()) => Ok(()),
                    Err(_) => Err(PeerTableError::TableFull),
                }
            },
        }
    }

    /// Removes the entry for `node_addr`.
    pub fn remove_peer(&mut self, node_addr: &NodeAddr) -> (r: Result<(), PeerTableError>)
        ensures
            (final(self)@, r) == spec_remove(old(self)@, node_addr@),
    {
        proof {
            use_type_invariant(&*self);
        }
        match find_index(slots_as_slice(&self.peers), node_addr) {
            Some(pos) => {
                let ghost before = self@;
                proof {
                    let after = before.remove(pos as int);
                    assert(addrs_unique(after)) by {
                        assert forall|i: int, j: int| 0 <= i < j < after.len() implies after[i].node_addr@
                            != after[j].node_addr@ by {
                            if j < pos {
                                assert(before[i].node_addr@ != before[j].node_addr@);
                            } else if i < pos {
                                assert(before[i].node_addr@ != before[j + 1].node_addr@);
                            } else {
                                assert(before[i + 1].node_addr@ != before[j + 1].node_addr@);
                            }
                        }
                    }
                }
                let mut slots = self.take_slots();
                let _ = slots_remove(&mut slots, pos);
                self.peers = slots;
                Ok(())
            },
            None => Err(PeerTableError::PeerNotFound),
        }
    }

    /// The entry for `node_addr`.
    pub fn get_peer(&self, node_addr: &NodeAddr) -> (r: Result<&PeerEntry, PeerTableError>)
        ensures
            r matches Ok(e) ==> spec_get(self@, node_addr@) == Ok::<PeerEntry, PeerTableError>(*e),
            r matches Err(err) ==> spec_get(self@, node_addr@) == Err::<PeerEntry, PeerTableError>(err),
    {
        let slots = slots_as_slice(&self.peers);
        match find_index(slots, node_addr) {
            Some(pos) => Ok(&slots[pos]),
            None => Err(PeerTableError::PeerNotFound),
        }
    }

    /// The MAC address that reaches `node_addr`.
    pub fn get_mac_addr(&self, node_addr: &NodeAddr) -> (r: Result<MacAddress, PeerTableError>)
        ensures
            r == (match spec_get(self@, node_addr@) {
                Ok(e) => Ok(e.mac_addr),
                Err(err) => Err(err),
            }),
    {
        match self.get_peer(node_addr) {
            Ok(p) => Ok(p.mac_addr),
            Err(e) => Err(e),
        }
    }

    /// Every entry, in table order; no two share a node address.
    pub fn get_all_peers(&self) -> (r: &[PeerEntry])
        ensures
            r@ == self@,
            addrs_unique(r@),
    {
        proof {
            use_type_invariant(self);
        }
        slots_as_slice(&self.peers)
    }

    pub fn len(&self) -> (r: usize)
        ensures
            r == self@.len(),
            r <= MAX_PEERS,
    {
        slots_as_slice(&self.peers).len()
    }

    pub fn is_empty(&self) -> (r: bool)
        ensures
            r == (self@.len() == 0),
    {
        self.len() == 0
    }

    pub fn is_full(&self) -> (r: bool)
        ensures
            r == (self@.len() >= MAX_PEERS),
    {
        self.len() >= MAX_PEERS
    }

    /// Least-recently-seen eviction: when the table is full, orders it by
    /// last-seen time (oldest first, ties in table order) and drops the oldest.
    pub fn evict_stale_peers(&mut self)
        ensures
            final(self)@ == spec_evict(old(self)@),
    {
        proof {
            use_type_invariant(&*self);
        }
        if self.len() < MAX_PEERS {
            return;
        }
        let sorted = sorted_by_last_seen(slots_as_slice(&self.peers));
        let ghost before = self@;
        proof {
            lemma_sort_by_last_seen(before);
            let kept = sorted@.drop_first();
            assert(addrs_unique(kept)) by {
                assert forall|i: int, j: int| 0 <= i < j < kept.len() implies kept[i].node_addr@
                    != kept[j].node_addr@ by {
                    assert(kept[i] == sorted@[i + 1] && kept[j] == sorted@[j + 1]);
                }
            }
        }
        let mut rebuilt = slots_new();
        let mut i: usize = 1;
        while i < sorted.len()
            invariant
                1 <= i <= sorted@.len(),
                sorted@.len() == MAX_PEERS,
                peer_entries(rebuilt) == sorted@.subrange(1, i as int),
            decreases sorted.len() - i,
        {
            let _ = slots_push(&mut rebuilt, sorted[i]);
            assert(sorted@.subrange(1, i + 1) =~= sorted@.subrange(1, i as int).push(sorted@[i as int]));
            i = i + 1;
        }
        assert(sorted@.subrange(1, sorted@.len() as int) =~= sorted@.drop_first());
        self.peers = rebuilt;
    }

    /// Sets the status of the entry for `node_addr`.
    pub fn update_peer_status(&mut self, node_addr: &NodeAddr, status: PeerStatus) -> (r: Result<(), PeerTableError>)
        ensures
            (final(self)@, r) == (match position_of(old(self)@, node_addr@) {
                Some(i) => spec_modify(old(self)@, node_addr@, PeerEntry { status, ..old(self)@[i] }),
                None => (old(self)@, Err(PeerTableError::PeerNotFound)),
            }),
    {
        proof {
            use_type_invariant(&*self);
        }
        match find_index(slots_as_slice(&self.peers), node_addr) {
            Some(pos) => {
                let entry = PeerEntry { status, ..slots_as_slice(&self.peers)[pos] };
                proof {
                    self.lemma_update_keeps_unique(pos as int, entry);
                }
                let mut slots = self.take_slots();
                slots_set(&mut slots, pos, entry);
                self.peers = slots;
                Ok(())
            },
            None => Err(PeerTableError::PeerNotFound),
        }
    }

    /// Marks the entry for `node_addr` active and seen at `now`.
    pub fn mark_peer_active(&mut self, node_addr: &NodeAddr, now: Instant) -> (r: Result<(), PeerTableError>)
        ensures
            (final(self)@, r) == (match position_of(old(self)@, node_addr@) {
                Some(i) => spec_modify(
                    old(self)@,
                    node_addr@,
                    PeerEntry { last_seen: now, status: PeerStatus::Active, ..old(self)@[i] },
                ),
                None => (old(self)@, Err(PeerTableError::PeerNotFound)),
            }),
    {
        proof {
            use_type_invariant(&*self);
        }
        match find_index(slots_as_slice(&self.peers), node_addr) {
            Some(pos) => {
                let entry = PeerEntry { last_seen: now, status: PeerStatus::Active, ..slots_as_slice(&self.peers)[pos] };
                proof {
                    self.lemma_update_keeps_unique(pos as int, entry);
                }
                let mut slots = self.take_slots();
                slots_set(&mut slots, pos, entry);
                self.peers = slots;
                Ok(())
            },
            None => Err(PeerTableError::PeerNotFound),
        }
    }

    proof fn lemma_update_keeps_unique(&self, pos: int, entry: PeerEntry)
        requires
            addrs_unique(self@),
            0 <= pos < self@.len(),
            entry.node_addr == self@[pos].node_addr,
        ensures
            addrs_unique(self@.update(pos, entry)),
    {
        let after = self@.update(pos, entry);
        assert forall|i: int, j: int| 0 <= i < j < after.len() implies after[i].node_addr@
            != after[j].node_addr@ by {
            assert(self@[i].node_addr@ != self@[j].node_addr@);
        }
    }

    /// The entries with `status`, in table order.
    pub fn find_peers_by_status(&self, status: PeerStatus) -> (r: Vec<PeerEntry>)
        ensures
            r@ == self@.filter(with_status(status)),
    {
        let slots = slots_as_slice(&self.peers);
        let mut out: Vec<PeerEntry> = Vec::new();
        let mut i: usize = 0;
        while i < slots.len()
            invariant
                0 <= i <= slots@.len(),
                out@ == slots@.take(i as int).filter(with_status(status)),
            decreases slots.len() - i,
        {
            proof {
                reveal(Seq::filter);
                assert(slots@.take(i + 1).drop_last() =~= slots@.take(i as int));
                assert(slots@.take(i + 1).last() == slots@[i as int]);
            }
            if slots[i].status == status {
                out.push(slots[i]);
            }
            i = i + 1;
        }
        assert(slots@.take(slots@.len() as int) =~= slots@);
        out
    }

    /// The active entries, in table order.
    pub fn get_active_peers(&self) -> (r: Vec<PeerEntry>)
        ensures
            r@ == self@.filter(with_status(PeerStatus::Active)),
    {
        self.find_peers_by_status(PeerStatus::Active)
    }

    /// Counts of the entries by status, and the capacity.
    pub fn get_stats(&self) -> (r: PeerTableStats)
        ensures
            r.total == self@.len(),
            r.active == self@.filter(with_status(PeerStatus::Active)).len(),
            r.suspect == self@.filter(with_status(PeerStatus::Suspect)).len(),
            r.dead == self@.filter(with_status(PeerStatus::Dead)).len(),
            r.capacity == MAX_PEERS,
    {
        let total = self.len();
        let active = self.find_peers_by_status(PeerStatus::Active).len();
        let suspect = self.find_peers_by_status(PeerStatus::Suspect).len();
        let dead = self.find_peers_by_status(PeerStatus::Dead).len();
        PeerTableStats { total, active, suspect, dead, capacity: MAX_PEERS }
    }
}

impl Default for PeerTable {
    fn default() -> (t: Self)
        ensures
            t@ == Seq::<PeerEntry>::empty(),
    {
        Self::new()
    }
}

/// After a successful add or refresh, looking the address up gives an active
/// entry with the new MAC address, seen at `now`.
pub proof fn lemma_get_after_add(s: Seq<PeerEntry>, node_addr: NodeAddr, mac_addr: MacAddress, now: Instant)
    requires
        addrs_unique(s),
        spec_add_or_update(s, node_addr, mac_addr, now).1 is Ok,
    ensures
        spec_get(spec_add_or_update(s, node_addr, mac_addr, now).0, node_addr@) matches Ok(e) && e.node_addr@
            == node_addr@ && e.mac_addr == mac_addr && e.last_seen == now && e.status == PeerStatus::Active,
        addrs_unique(spec_add_or_update(s, node_addr, mac_addr, now).0),
{
    lemma_position(s, node_addr@);
    let after = spec_add_or_update(s, node_addr, mac_addr, now).0;
    match position_of(s, node_addr@) {
        Some(i) => {
            assert forall|a: int, b: int| 0 <= a < b < after.len() implies after[a].node_addr@
                != after[b].node_addr@ by {
                assert(s[a].node_addr@ != s[b].node_addr@);
            }
            lemma_unique_position(after, node_addr@, i);
        },
        None => {
            assert forall|a: int, b: int| 0 <= a < b < after.len() implies after[a].node_addr@
                != after[b].node_addr@ by {
                if b < s.len() {
                    assert(s[a].node_addr@ != s[b].node_addr@);
                }
            }
            lemma_unique_position(after, node_addr@, s.len() as int);
        },
    }
}

/// Adding fails only when the address is new and every slot is taken.
pub proof fn lemma_add_fails_only_when_full(s: Seq<PeerEntry>, node_addr: NodeAddr, mac_addr: MacAddress, now: Instant)
    ensures
        spec_add_or_update(s, node_addr, mac_addr, now).1 is Err <==> (s.len() >= MAX_PEERS && forall|j: int|
            0 <= j < s.len() ==> s[j].node_addr@ != node_addr@),
{
    lemma_position(s, node_addr@);
}

/// Once removed, an address is no longer found.
pub proof fn lemma_get_after_remove(s: Seq<PeerEntry>, addr: Seq<u8>)
    requires
        addrs_unique(s),
    ensures
        spec_get(spec_remove(s, addr).0, addr) == Err::<PeerEntry, PeerTableError>(PeerTableError::PeerNotFound),
{
    lemma_position(s, addr);
    let after = spec_remove(s, addr).0;
    if let Some(i) = position_of(s, addr) {
        assert forall|j: int| 0 <= j < after.len() implies after[j].node_addr@ != addr by {
            if j < i {
                assert(s[j].node_addr@ != s[i].node_addr@);
            } else {
                assert(after[j] == s[j + 1]);
                assert(s[i].node_addr@ != s[j + 1].node_addr@);
            }
        }
    }
    lemma_position(after, addr);
}

/// Every entry is active, suspect or dead: the status counts add up to the total.
pub proof fn lemma_status_counts_partition(s: Seq<PeerEntry>)
    ensures
        s.filter(with_status(PeerStatus::Active)).len() + s.filter(with_status(PeerStatus::Suspect)).len()
            + s.filter(with_status(PeerStatus::Dead)).len() == s.len(),
    decreases s.len(),
{
    reveal(Seq::filter);
    if s.len() > 0 {
        lemma_status_counts_partition(s.drop_last());
    }
}

/// Evicting from a full table drops exactly one entry, one seen no later
/// than any other, and leaves the rest ordered oldest first.
pub proof fn lemma_evict_drops_oldest(s: Seq<PeerEntry>)
    requires
        s.len() == MAX_PEERS,
    ensures
        spec_evict(s).len() == MAX_PEERS - 1,
        oldest_first(spec_evict(s)),
        exists|d: PeerEntry|
            #![trigger s.to_multiset().remove(d)]
            s.contains(d) && (forall|j: int| 0 <= j < s.len() ==> d.last_seen.micros <= s[j].last_seen.micros)
                && spec_evict(s).to_multiset() == s.to_multiset().remove(d),
{
    lemma_sort_by_last_seen(s);
    let sorted = sort_by_last_seen(s);
    let d = sorted[0];
    assert(sorted.contains(d));
    assert(sorted.to_multiset().count(d) > 0);
    assert(s.to_multiset().count(d) > 0);
    assert(s.contains(d));
    assert forall|j: int| 0 <= j < s.len() implies d.last_seen.micros <= s[j].last_seen.micros by {
        assert(s.contains(s[j]));
        assert(s.to_multiset().count(s[j]) > 0);
        assert(sorted.to_multiset().count(s[j]) > 0);
        assert(sorted.contains(s[j]));
        let k = choose|k: int| 0 <= k < sorted.len() && sorted[k] == s[j];
    }
    assert(sorted.drop_first() =~= sorted.remove(0));
    assert(spec_evict(s).to_multiset() == s.to_multiset().remove(d));
}

} // verus!
