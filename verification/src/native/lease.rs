//! Native frame leases: which surfaces consumers still hold, and the release
//! timelines that free them.

use std::collections::{HashMap, HashSet};

use vstd::prelude::*;
use vstd::std_specs::hash::spec_hash_map_iter;
use vstd::std_specs::iter::IteratorSpec;
use vstd::string::*;

use crate::text::{decimal_string, spec_decimal};

verus! {

/// The frame identity protected by one native lease.
#[derive(Debug, Clone, Copy, PartialEq, Eq, Structural)]
pub struct NativeLeaseIdentity {
    pub cursor: u64,
    pub sequence: u64,
    pub pool_id: u64,
    pub slot_id: u32,
}

/// How a consumer releases a lease.
#[derive(Debug, Clone, Copy, PartialEq, Eq, Structural)]
pub enum NativeLeaseRelease {
    /// The consumer is fully done with the surface now.
    Now,
    /// The consumer is done once its release timeline reaches `value`.
    TimelineValue { release_sync_id: u64, value: u64 },
}

#[derive(Debug, Clone, Copy, PartialEq, Eq, Structural)]
pub struct ReleasedNativeLease {
    pub lease_id: u64,
    pub identity: NativeLeaseIdentity,
}

#[derive(Debug, Clone, Copy, PartialEq, Eq, Structural)]
pub enum NativeLeaseError {
    UnknownLease(u64),
    AlreadyReleased(u64),
    UnknownReleaseSync(u64),
}

/// The human-readable description of a lease error.
pub open spec fn spec_lease_error_message(error: NativeLeaseError) -> Seq<char> {
    match error {
        NativeLeaseError::UnknownLease(id) => "native lease id "@ + spec_decimal(id as nat) + " is unknown"@,
        NativeLeaseError::AlreadyReleased(id) => "native lease id "@ + spec_decimal(id as nat)
            + " was already released"@,
        NativeLeaseError::UnknownReleaseSync(id) => "native release sync id "@ + spec_decimal(id as nat)
            + " is unknown"@,
    }
}

impl NativeLeaseError {
    /// The error's message, as its `Display` form would print it.
    pub fn to_message(&self) -> (text: String)
        ensures
            text@ == spec_lease_error_message(*self),
    {
        let (prefix, id, suffix) = match self {
            NativeLeaseError::UnknownLease(id) => ("native lease id ", *id, " is unknown"),
            NativeLeaseError::AlreadyReleased(id) => ("native lease id ", *id, " was already released"),
            NativeLeaseError::UnknownReleaseSync(id) => ("native release sync id ", *id, " is unknown"),
        };
        let mut text = String::from_str(prefix);
        let number = decimal_string(id);
        text.append(number.as_str());
        text.append(suffix);
        text
    }
}

#[derive(Debug, Clone, Copy, PartialEq, Eq, Structural)]
enum LeaseState {
    Outstanding,
    ReleasePending { release_sync_id: u64, value: u64 },
}

#[derive(Debug, Clone, Copy, PartialEq, Eq, Structural)]
struct LeaseEntry {
    identity: NativeLeaseIdentity,
    state: LeaseState,
}

/// A lease as the book records it: the frame it protects, and the release
/// timeline point it waits for once released against a timeline.
pub type LeaseRecord = (NativeLeaseIdentity, Option<(u64, u64)>);

spec fn spec_record(entry: LeaseEntry) -> LeaseRecord {
    match entry.state {
        LeaseState::Outstanding => (entry.identity, None),
        LeaseState::ReleasePending { release_sync_id, value } => (entry.identity, Some((release_sync_id, value))),
    }
}

/// Whether a pending release at `(sync, value)` is resolved by `sync` reaching `reached`.
pub open spec fn spec_resolved_by(record: LeaseRecord, release_sync_id: u64, reached_value: u64) -> bool {
    match record.1 {
        Some((sync, value)) => sync == release_sync_id && value <= reached_value,
        None => false,
    }
}

/// Whether some unresolved lease protects pool `pool_id`, slot `slot_id`.
pub open spec fn spec_slot_held(leases: Map<u64, LeaseRecord>, pool_id: u64, slot_id: u32) -> bool {
    exists|id: u64| #[trigger] leases.contains_key(id) && leases[id].0.pool_id == pool_id && leases[id].0.slot_id == slot_id
}

/// The outcome of releasing `lease_id`, and the leases left afterwards.
pub open spec fn spec_release(
    leases: Map<u64, LeaseRecord>,
    release_syncs: Set<u64>,
    lease_id: u64,
    release: NativeLeaseRelease,
) -> (Result<ReleasedNativeLease, NativeLeaseError>, Map<u64, LeaseRecord>) {
    if !leases.contains_key(lease_id) {
        (Err(NativeLeaseError::UnknownLease(lease_id)), leases)
    } else if leases[lease_id].1 is Some {
        (Err(NativeLeaseError::AlreadyReleased(lease_id)), leases)
    } else {
        let identity = leases[lease_id].0;
        match release {
            NativeLeaseRelease::Now => (Ok(ReleasedNativeLease { lease_id, identity }), leases.remove(lease_id)),
            NativeLeaseRelease::TimelineValue { release_sync_id, value } => if release_syncs.contains(release_sync_id) {
                (
                    Ok(ReleasedNativeLease { lease_id, identity }),
                    leases.insert(lease_id, (identity, Some((release_sync_id, value)))),
                )
            } else {
                (Err(NativeLeaseError::UnknownReleaseSync(release_sync_id)), leases)
            },
        }
    }
}

/// The leases left once timeline `release_sync_id` reached `reached_value`.
pub open spec fn spec_complete_release_sync(
    leases: Map<u64, LeaseRecord>,
    release_sync_id: u64,
    reached_value: u64,
) -> Map<u64, LeaseRecord> {
    leases.restrict(leases.dom().filter(|id: u64| !spec_resolved_by(leases[id], release_sync_id, reached_value)))
}

/// Lease id `id` was handed out before the counter reached `next`: it lies
/// below `next`, or the counter has stuck at `u64::MAX`.
pub open spec fn spec_id_issued(id: u64, next: u64) -> bool {
    id < next || next == u64::MAX
}

/// Entry `i` of a walk over the leases belongs to lease `id` and resolves
/// once timeline `release_sync_id` reaches `reached_value`.
spec fn spec_resolving_at(
    walk: Seq<(&u64, &LeaseEntry)>,
    i: int,
    id: u64,
    release_sync_id: u64,
    reached_value: u64,
) -> bool {
    *walk[i].0 == id && spec_resolved_by(spec_record(*walk[i].1), release_sync_id, reached_value)
}

/// Tracks native frame leases and release timelines. The caller owns the
/// actual sync handles and reports when a release timeline reaches a value.
#[derive(Debug)]
pub struct NativeLeaseBook {
    next_lease_id: u64,
    next_release_sync_id: u64,
    leases: HashMap<u64, LeaseEntry>,
    release_syncs: HashSet<u64>,
}

impl Default for NativeLeaseBook {
    /// An empty book whose id counters start at 0.
    fn default() -> (book: Self)
        ensures
            book.wf(),
            book.next_lease_id_view() == 0,
            book.next_release_sync_id_view() == 0,
            book.leases_view() == Map::<u64, LeaseRecord>::empty(),
            book.release_syncs_view() == Set::<u64>::empty(),
    {
        let book = NativeLeaseBook {
            next_lease_id: 0,
            next_release_sync_id: 0,
            leases: HashMap::new(),
            release_syncs: HashSet::new(),
        };
        proof {
            assert(book.leases_view() =~= Map::<u64, LeaseRecord>::empty());
        }
        book
    }
}

impl NativeLeaseBook {
    pub closed spec fn next_lease_id_view(&self) -> u64 {
        self.next_lease_id
    }

    pub closed spec fn next_release_sync_id_view(&self) -> u64 {
        self.next_release_sync_id
    }

    /// Unresolved leases by id.
    pub closed spec fn leases_view(&self) -> Map<u64, LeaseRecord> {
        self.leases@.map_values(|entry: LeaseEntry| spec_record(entry))
    }

    /// Registered release timelines.
    pub closed spec fn release_syncs_view(&self) -> Set<u64> {
        self.release_syncs@
    }

    pub closed spec fn wf(&self) -> bool {
        forall|id: u64| #[trigger] self.leases@.contains_key(id) ==> spec_id_issued(id, self.next_lease_id)
    }

    /// An empty book whose first lease and release-sync ids are 1.
    pub fn new() -> (book: Self)
        ensures
            book.wf(),
            book.next_lease_id_view() == 1,
            book.next_release_sync_id_view() == 1,
            book.leases_view() == Map::<u64, LeaseRecord>::empty(),
            book.release_syncs_view() == Set::<u64>::empty(),
    {
        let book = NativeLeaseBook {
            next_lease_id: 1,
            next_release_sync_id: 1,
            leases: HashMap::new(),
            release_syncs: HashSet::new(),
        };
        proof {
            assert(book.leases_view() =~= Map::<u64, LeaseRecord>::empty());
        }
        book
    }

    /// Open an outstanding lease on `identity` under the next lease id.
    pub fn acquire(&mut self, identity: NativeLeaseIdentity) -> (lease_id: u64)
        requires
            old(self).wf(),
        ensures
            final(self).wf(),
            spec_book_step(*old(self), *final(self)),
            lease_id == old(self).next_lease_id_view(),
            old(self).next_lease_id_view() < u64::MAX ==> !old(self).leases_view().contains_key(lease_id),
            final(self).next_lease_id_view() == (if old(self).next_lease_id_view() == u64::MAX {
                u64::MAX
            } else {
                (old(self).next_lease_id_view() + 1) as u64
            }),
            final(self).next_release_sync_id_view() == old(self).next_release_sync_id_view(),
            final(self).leases_view() == old(self).leases_view().insert(lease_id, (identity, None)),
            final(self).release_syncs_view() == old(self).release_syncs_view(),
    {
        let lease_id = self.next_lease_id;
        self.next_lease_id = self.next_lease_id.saturating_add(1);
        self.leases.insert(lease_id, LeaseEntry { identity, state: LeaseState::Outstanding });
        proof {
            assert(self.leases_view() =~= old(self).leases_view().insert(lease_id, (identity, None)));
        }
        lease_id
    }

    /// Register a release timeline under the next release-sync id.
    pub fn register_release_sync(&mut self) -> (release_sync_id: u64)
        requires
            old(self).wf(),
        ensures
            final(self).wf(),
            spec_book_step(*old(self), *final(self)),
            release_sync_id == old(self).next_release_sync_id_view(),
            final(self).next_release_sync_id_view() == (if old(self).next_release_sync_id_view() == u64::MAX {
                u64::MAX
            } else {
                (old(self).next_release_sync_id_view() + 1) as u64
            }),
            final(self).next_lease_id_view() == old(self).next_lease_id_view(),
            final(self).leases_view() == old(self).leases_view(),
            final(self).release_syncs_view() == old(self).release_syncs_view().insert(release_sync_id),
    {
        let release_sync_id = self.next_release_sync_id;
        self.next_release_sync_id = self.next_release_sync_id.saturating_add(1);
        self.release_syncs.insert(release_sync_id);
        release_sync_id
    }

    /// Register a release timeline whose id was assigned elsewhere; later
    /// generated ids stay above it.
    pub fn register_release_sync_id(&mut self, release_sync_id: u64)
        requires
            old(self).wf(),
        ensures
            final(self).wf(),
            spec_book_step(*old(self), *final(self)),
            final(self).next_release_sync_id_view() == (if release_sync_id == u64::MAX {
                u64::MAX
            } else if old(self).next_release_sync_id_view() > release_sync_id + 1 {
                old(self).next_release_sync_id_view()
            } else {
                (release_sync_id + 1) as u64
            }),
            final(self).next_lease_id_view() == old(self).next_lease_id_view(),
            final(self).leases_view() == old(self).leases_view(),
            final(self).release_syncs_view() == old(self).release_syncs_view().insert(release_sync_id),
    {
        let floor = release_sync_id.saturating_add(1);
        if floor > self.next_release_sync_id {
            self.next_release_sync_id = floor;
        }
        self.release_syncs.insert(release_sync_id);
    }

    /// Release lease `lease_id`: at once, or once a registered release
    /// timeline reaches a value.
    pub fn release(&mut self, lease_id: u64, release: NativeLeaseRelease) -> (released: Result<ReleasedNativeLease, NativeLeaseError>)
        requires
            old(self).wf(),
        ensures
            final(self).wf(),
            spec_book_step(*old(self), *final(self)),
            final(self).next_lease_id_view() == old(self).next_lease_id_view(),
            final(self).next_release_sync_id_view() == old(self).next_release_sync_id_view(),
            final(self).release_syncs_view() == old(self).release_syncs_view(),
            (released, final(self).leases_view()) == spec_release(
                old(self).leases_view(),
                old(self).release_syncs_view(),
                lease_id,
                release,
            ),
    {
        let entry = match self.leases.get(&lease_id) {
            Some(entry) => *entry,
            None => return Err(NativeLeaseError::UnknownLease(lease_id)),
        };
        if entry.state != LeaseState::Outstanding {
            return Err(NativeLeaseError::AlreadyReleased(lease_id));
        }
        match release {
            NativeLeaseRelease::Now => {
                self.leases.remove(&lease_id);
                proof {
                    assert(self.leases_view() =~= old(self).leases_view().remove(lease_id));
                }
                Ok(ReleasedNativeLease { lease_id, identity: entry.identity })
            },
            NativeLeaseRelease::TimelineValue { release_sync_id, value } => {
                if !self.release_syncs.contains(&release_sync_id) {
                    return Err(NativeLeaseError::UnknownReleaseSync(release_sync_id));
                }
                self.leases.insert(
                    lease_id,
                    LeaseEntry { identity: entry.identity, state: LeaseState::ReleasePending { release_sync_id, value } },
                );
                proof {
                    assert(self.leases_view() =~= old(self).leases_view().insert(
                        lease_id,
                        (entry.identity, Some((release_sync_id, value))),
                    ));
                }
                Ok(ReleasedNativeLease { lease_id, identity: entry.identity })
            },
        }
    }

    /// Report that timeline `release_sync_id` reached `reached_value`: every
    /// lease released against it at or below that value resolves.
    pub fn complete_release_sync(&mut self, release_sync_id: u64, reached_value: u64) -> (completed: Result<(), NativeLeaseError>)
        requires
            old(self).wf(),
        ensures
            final(self).wf(),
            spec_book_step(*old(self), *final(self)),
            final(self).next_lease_id_view() == old(self).next_lease_id_view(),
            final(self).next_release_sync_id_view() == old(self).next_release_sync_id_view(),
            final(self).release_syncs_view() == old(self).release_syncs_view(),
            completed is Ok <==> old(self).release_syncs_view().contains(release_sync_id),
            completed is Err ==> completed == Err::<(), NativeLeaseError>(NativeLeaseError::UnknownReleaseSync(release_sync_id)),
            final(self).leases_view() == (if completed is Ok {
                spec_complete_release_sync(old(self).leases_view(), release_sync_id, reached_value)
            } else {
                old(self).leases_view()
            }),
    {
        broadcast use vstd::std_specs::hash::group_hash_axioms;

        if !self.release_syncs.contains(&release_sync_id) {
            return Err(NativeLeaseError::UnknownReleaseSync(release_sync_id));
        }
        let ghost before = self.leases@;
        let ghost walk = spec_hash_map_iter(&self.leases).remaining();
        let mut resolved: Vec<u64> = Vec::new();
        for pair in it: self.leases.iter()
            invariant
                before == self.leases@,
                it.seq() == walk,
                walk == spec_hash_map_iter(&self.leases).remaining(),
                forall|x: u64|
                    #[trigger] resolved@.contains(x) <==> exists|i: int|
                        0 <= i < it.index() && spec_resolving_at(walk, i, x, release_sync_id, reached_value),
        {
            let (id, entry) = pair;
            let ghost index = it.index();
            let ghost prev = resolved@;
            let done = match entry.state {
                LeaseState::ReleasePending { release_sync_id: pending, value } => pending == release_sync_id && value
                    <= reached_value,
                LeaseState::Outstanding => false,
            };
            proof {
                assert(walk[index] == pair);
                assert(done == spec_resolved_by(spec_record(*entry), release_sync_id, reached_value));
            }
            if done {
                resolved.push(*id);
            }
            proof {
                assert forall|x: u64| #[trigger] resolved@.contains(x) <==> exists|i: int|
                    0 <= i < index + 1 && spec_resolving_at(walk, i, x, release_sync_id, reached_value) by {
                    if resolved@.contains(x) {
                        if done && x == *id {
                            assert(spec_resolving_at(walk, index, x, release_sync_id, reached_value));
                        } else {
                            if done {
                                let j = choose|j: int| 0 <= j < resolved@.len() && resolved@[j] == x;
                                assert(prev[j] == x);
                            }
                            assert(prev.contains(x));
                        }
                    }
                    if exists|i: int| 0 <= i < index + 1 && spec_resolving_at(walk, i, x, release_sync_id, reached_value) {
                        let i = choose|i: int|
                            0 <= i < index + 1 && spec_resolving_at(walk, i, x, release_sync_id, reached_value);
                        if i < index {
                            assert(prev.contains(x));
                            let j = choose|j: int| 0 <= j < prev.len() && prev[j] == x;
                            if done {
                                assert(resolved@[j] == x);
                            }
                        } else {
                            assert(resolved@[resolved@.len() - 1] == x);
                        }
                    }
                }
            }
        }
        proof {
            assert forall|x: u64| #[trigger] resolved@.contains(x) <==> (before.contains_key(x) && spec_resolved_by(
                spec_record(before[x]),
                release_sync_id,
                reached_value,
            )) by {
                if resolved@.contains(x) {
                    let i = choose|i: int| 0 <= i < walk.len() && spec_resolving_at(walk, i, x, release_sync_id, reached_value);
                    assert(before.contains_key(*walk[i].0));
                }
                if before.contains_key(x) && spec_resolved_by(spec_record(before[x]), release_sync_id, reached_value) {
                    assert(walk.contains((&x, &before[x])));
                    let i = choose|i: int| 0 <= i < walk.len() && walk[i] == (&x, &before[x]);
                    assert(spec_resolving_at(walk, i, x, release_sync_id, reached_value));
                }
            }
        }
        let mut k: usize = 0;
        while k < resolved.len()
            invariant
                k <= resolved@.len(),
                self.next_lease_id == old(self).next_lease_id,
                self.next_release_sync_id == old(self).next_release_sync_id,
                self.release_syncs@ == old(self).release_syncs@,
                before == old(self).leases@,
                forall|x: u64|
                    #[trigger] self.leases@.contains_key(x) <==> (before.contains_key(x) && !resolved@.take(
                        k as int,
                    ).contains(x)),
                forall|x: u64| #[trigger] self.leases@.contains_key(x) ==> self.leases@[x] == before[x],
            decreases resolved@.len() - k,
        {
            let id = resolved[k];
            let ghost prior = self.leases@;
            self.leases.remove(&id);
            proof {
                assert(self.leases@ == prior.remove(id));
                let done = resolved@.take(k + 1);
                let earlier = resolved@.take(k as int);
                assert(done =~= earlier.push(id));
                assert forall|x: u64| #[trigger] self.leases@.contains_key(x) <==> (before.contains_key(x)
                    && !done.contains(x)) by {
                    if x == id {
                        assert(done[k as int] == id);
                    } else {
                        if done.contains(x) {
                            let j = choose|j: int| 0 <= j < done.len() && done[j] == x;
                            assert(earlier[j] == x);
                        }
                        if earlier.contains(x) {
                            let j = choose|j: int| 0 <= j < earlier.len() && earlier[j] == x;
                            assert(done[j] == x);
                        }
                    }
                }
            }
            k = k + 1;
        }
        proof {
            assert(resolved@.take(k as int) =~= resolved@);
            assert(self.leases_view() =~= spec_complete_release_sync(old(self).leases_view(), release_sync_id, reached_value));
        }
        Ok(())
    }

    /// Whether any lease on pool `pool_id`, slot `slot_id` is unresolved.
    pub fn slot_has_unresolved_leases(&self, pool_id: u64, slot_id: u32) -> (held: bool)
        requires
            self.wf(),
        ensures
            held == spec_slot_held(self.leases_view(), pool_id, slot_id),
            held <==> exists|id: u64|
                #![trigger self.leases_view()[id]]
                self.leases_view().contains_key(id) && self.leases_view()[id].0.pool_id == pool_id
                    && self.leases_view()[id].0.slot_id == slot_id,
    {
        broadcast use vstd::std_specs::hash::group_hash_axioms;

        for pair in it: self.leases.iter()
            invariant
                it.seq() == spec_hash_map_iter(&self.leases).remaining(),
                forall|i: int|
                    0 <= i < it.index() ==> !((*it.seq()[i].1).identity.pool_id == pool_id
                        && (*it.seq()[i].1).identity.slot_id == slot_id),
        {
            let (id, entry) = pair;
            if entry.identity.pool_id == pool_id && entry.identity.slot_id == slot_id {
                proof {
                    assert(self.leases@.contains_key(*id));
                    assert(self.leases_view().contains_key(*id));
                }
                return true;
            }
        }
        proof {
            if spec_slot_held(self.leases_view(), pool_id, slot_id) {
                let id = choose|id: u64| #[trigger] self.leases_view().contains_key(id) && self.leases_view()[id].0.pool_id
                    == pool_id && self.leases_view()[id].0.slot_id == slot_id;
                assert(self.leases@.contains_key(id));
            }
        }
        false
    }

    /// Number of unresolved leases.
    pub fn outstanding_count(&self) -> (count: usize)
        requires
            self.wf(),
        ensures
            count == self.leases_view().len(),
    {
        proof {
            assert(self.leases_view().dom() =~= self.leases@.dom());
        }
        self.leases.len()
    }
}

/// A lease is released once: whatever the first successful release was, a
/// second release of the same id is refused, as unknown after a release now
/// and as already released after a release against a timeline.
pub proof fn law_release_is_once(
    leases: Map<u64, LeaseRecord>,
    release_syncs: Set<u64>,
    lease_id: u64,
    first: NativeLeaseRelease,
    second: NativeLeaseRelease,
)
    requires
        spec_release(leases, release_syncs, lease_id, first).0 is Ok,
    ensures
        spec_release(spec_release(leases, release_syncs, lease_id, first).1, release_syncs, lease_id, second).0
            == (match first {
            NativeLeaseRelease::Now => Err::<ReleasedNativeLease, NativeLeaseError>(
                NativeLeaseError::UnknownLease(lease_id),
            ),
            NativeLeaseRelease::TimelineValue { .. } => Err::<ReleasedNativeLease, NativeLeaseError>(
                NativeLeaseError::AlreadyReleased(lease_id),
            ),
        }),
{
    let after = spec_release(leases, release_syncs, lease_id, first).1;
    match first {
        NativeLeaseRelease::Now => {
            assert(!after.contains_key(lease_id));
        },
        NativeLeaseRelease::TimelineValue { .. } => {
            assert(after.contains_key(lease_id));
            assert(after[lease_id].1 is Some);
        },
    }
}

/// A slot stays held while any other lease on it is unresolved: releasing one
/// of two leases on the same slot leaves the slot held.
pub proof fn law_slot_held_until_every_lease_resolves(
    leases: Map<u64, LeaseRecord>,
    release_syncs: Set<u64>,
    lease_id: u64,
    other_id: u64,
    release: NativeLeaseRelease,
    pool_id: u64,
    slot_id: u32,
)
    requires
        lease_id != other_id,
        leases.contains_key(other_id),
        leases[other_id].0.pool_id == pool_id,
        leases[other_id].0.slot_id == slot_id,
    ensures
        spec_slot_held(spec_release(leases, release_syncs, lease_id, release).1, pool_id, slot_id),
{
    let after = spec_release(leases, release_syncs, lease_id, release).1;
    assert(after.contains_key(other_id));
    assert(after[other_id] == leases[other_id]);
}

/// A lease released against a timeline keeps its slot held until that
/// timeline reaches the release value, and resolves once it does.
pub proof fn law_timeline_release_resolves_at_value(
    leases: Map<u64, LeaseRecord>,
    release_syncs: Set<u64>,
    lease_id: u64,
    release_sync_id: u64,
    value: u64,
    reached_value: u64,
)
    requires
        spec_release(
            leases,
            release_syncs,
            lease_id,
            NativeLeaseRelease::TimelineValue { release_sync_id, value },
        ).0 is Ok,
    ensures
        ({
            let released = spec_release(
                leases,
                release_syncs,
                lease_id,
                NativeLeaseRelease::TimelineValue { release_sync_id, value },
            ).1;
            let identity = leases[lease_id].0;
            &&& spec_slot_held(released, identity.pool_id, identity.slot_id)
            &&& spec_complete_release_sync(released, release_sync_id, reached_value).contains_key(lease_id)
                <==> reached_value < value
        }),
{
    let released = spec_release(
        leases,
        release_syncs,
        lease_id,
        NativeLeaseRelease::TimelineValue { release_sync_id, value },
    ).1;
    assert(released.contains_key(lease_id));
    assert(released.dom().filter(|id: u64| !spec_resolved_by(released[id], release_sync_id, reached_value)).contains(
        lease_id,
    ) <==> reached_value < value);
}

/// How one book operation moves the id counters: neither goes back.
pub open spec fn spec_book_step(before: NativeLeaseBook, after: NativeLeaseBook) -> bool {
    &&& after.next_lease_id_view() >= before.next_lease_id_view()
    &&& after.next_release_sync_id_view() >= before.next_release_sync_id_view()
}

/// Law: over any run of book operations, neither id counter ever goes back.
pub proof fn law_book_counters_only_grow(books: Seq<NativeLeaseBook>, i: int, j: int)
    requires
        0 <= i <= j < books.len(),
        forall|k: int| 0 <= k < books.len() - 1 ==> #[trigger] spec_book_step(books[k], books[k + 1]),
    ensures
        books[j].next_lease_id_view() >= books[i].next_lease_id_view(),
        books[j].next_release_sync_id_view() >= books[i].next_release_sync_id_view(),
    decreases j - i,
{
    if i < j {
        law_book_counters_only_grow(books, i, j - 1);
        assert(spec_book_step(books[j - 1], books[(j - 1) + 1]));
    }
}

/// Law: a lease id `acquire` hands out below the saturation point is below
/// every lease id handed out later, so no two leases of a book share an id.
pub proof fn law_lease_ids_distinct(books: Seq<NativeLeaseBook>, i: int, j: int)
    requires
        0 <= i < j < books.len(),
        forall|k: int| 0 <= k < books.len() - 1 ==> #[trigger] spec_book_step(books[k], books[k + 1]),
        books[i + 1].next_lease_id_view() == books[i].next_lease_id_view() + 1,
    ensures
        books[j].next_lease_id_view() > books[i].next_lease_id_view(),
{
    law_book_counters_only_grow(books, i + 1, j);
}

/// Law: once a release timeline id `release_sync_id` below `u64::MAX` is
/// registered, every id `register_release_sync` hands out afterwards lies
/// above it, so generated ids never collide with it.
pub proof fn law_release_sync_ids_stay_above(books: Seq<NativeLeaseBook>, i: int, j: int, release_sync_id: u64)
    requires
        0 <= i < j < books.len(),
        forall|k: int| 0 <= k < books.len() - 1 ==> #[trigger] spec_book_step(books[k], books[k + 1]),
        books[i + 1].next_release_sync_id_view() > release_sync_id,
    ensures
        books[j].next_release_sync_id_view() > release_sync_id,
{
    law_book_counters_only_grow(books, i + 1, j);
}

/// Law: a pool slot is held exactly while some unresolved lease names that
/// very pool and that very slot; a lease on the same slot number of another
/// pool does not hold it.
pub proof fn law_slot_held_by_its_own_leases(leases: Map<u64, LeaseRecord>, pool_id: u64, slot_id: u32)
    ensures
        spec_slot_held(leases, pool_id, slot_id) <==> exists|id: u64|
            #![trigger leases[id]]
            leases.contains_key(id) && leases[id].0.pool_id == pool_id && leases[id].0.slot_id == slot_id,
        (forall|id: u64| #[trigger] leases.contains_key(id) ==> leases[id].0.pool_id != pool_id) ==> !spec_slot_held(
            leases,
            pool_id,
            slot_id,
        ),
{
    if spec_slot_held(leases, pool_id, slot_id) {
        let id = choose|id: u64| #[trigger] leases.contains_key(id) && leases[id].0.pool_id == pool_id
            && leases[id].0.slot_id == slot_id;
        assert(leases[id].0.pool_id == pool_id);
    }
    if exists|id: u64| #![trigger leases[id]] leases.contains_key(id) && leases[id].0.pool_id == pool_id && leases[id].0.slot_id == slot_id {
        let id = choose|id: u64| #![trigger leases[id]] leases.contains_key(id) && leases[id].0.pool_id == pool_id
            && leases[id].0.slot_id == slot_id;
        assert(leases.contains_key(id));
    }
}

/// Law: right after a lease is acquired on an empty book, exactly the slot
/// it names, in exactly its pool, is held.
pub proof fn law_acquired_lease_holds_only_its_slot(
    before: NativeLeaseBook,
    after: NativeLeaseBook,
    lease_id: u64,
    identity: NativeLeaseIdentity,
    pool_id: u64,
    slot_id: u32,
)
    requires
        before.leases_view() == Map::<u64, LeaseRecord>::empty(),
        after.leases_view() == before.leases_view().insert(lease_id, (identity, None)),
    ensures
        spec_slot_held(after.leases_view(), pool_id, slot_id) <==> (pool_id == identity.pool_id && slot_id
            == identity.slot_id),
{
    law_slot_held_by_its_own_leases(after.leases_view(), pool_id, slot_id);
    if pool_id == identity.pool_id && slot_id == identity.slot_id {
        assert(after.leases_view().contains_key(lease_id));
        assert(after.leases_view()[lease_id].0 == identity);
    }
}

} // verus!
