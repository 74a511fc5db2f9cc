use vstd::prelude::*;
use bp7::{Bundle, EndpointID};
use crate::bindings::{
    age_in, bundle_id, crc_known, crc_known_of, decoded, destination_in, destination_of,
    encodable, encoded_len, encoded_len_of, id_of, is_none_eid, is_null_endpoint, now_millis,
    payload_of, primary_of, stored_bundle_age, write_bundle_age,
};
use crate::constraint::{Constraint, ConstraintSet};

verus! {

/// What a pack is: its bundle and cached metadata, its constraints, and the
/// age its bundle held at reception.
pub struct PackView {
    pub bundle: Bundle,
    pub receiver: EndpointID,
    pub id: Seq<char>,
    pub timestamp: u64,
    pub size: usize,
    pub constraints: Set<Constraint>,
    pub reception_age: Option<u64>,
}

/// The pack that wrapping `bundle` at `timestamp` yields.
pub open spec fn fresh_view(bundle: Bundle, timestamp: u64) -> PackView {
    PackView {
        bundle,
        receiver: destination_in(primary_of(bundle)),
        id: id_of(primary_of(bundle)),
        timestamp,
        size: encoded_len_of(bundle) as usize,
        constraints: Set::empty(),
        reception_age: age_in(bundle),
    }
}

/// Time elapsed from `timestamp` to `now`, in milliseconds; a `now` before
/// the timestamp counts as no time at all.
pub open spec fn elapsed(timestamp: u64, now: u64) -> nat {
    if now > timestamp {
        (now - timestamp) as nat
    } else {
        0
    }
}

/// The age at `now` of a bundle that was `reception_age` old when received
/// at `timestamp`, saturated at `u64::MAX`.
pub open spec fn total_age(reception_age: u64, timestamp: u64, now: u64) -> u64 {
    if reception_age + elapsed(timestamp, now) > u64::MAX {
        u64::MAX
    } else {
        (reception_age + elapsed(timestamp, now)) as u64
    }
}

/// The new age that an update at `now` writes into the pack's age block:
/// `None` where the bundle has no age block, had none at reception, no
/// time has elapsed since reception, or the block already holds that age
/// or more.
pub open spec fn age_update(v: PackView, now: u64) -> Option<u64> {
    match (v.reception_age, age_in(v.bundle)) {
        (Some(base), Some(current)) => if now > v.timestamp && total_age(base, v.timestamp, now)
            > current {
            Some(total_age(base, v.timestamp, now))
        } else {
            None
        },
        _ => None,
    }
}

/// What an age update that wrote `age` leaves of the pack `v`: the same
/// pack, with a bundle whose age block holds `age` and whose primary
/// block, CRCs and payload are those of `v.bundle`.
pub open spec fn aged_to(v: PackView, w: PackView, age: u64) -> bool {
    &&& w == PackView { bundle: w.bundle, ..v }
    &&& age_in(w.bundle) == Some(age)
    &&& primary_of(w.bundle) == primary_of(v.bundle)
    &&& crc_known_of(w.bundle) == crc_known_of(v.bundle)
    &&& payload_of(w.bundle) == payload_of(v.bundle)
}

/// The age at `now` of a bundle that was `reception_age` old when received
/// at `timestamp`.
pub fn age_after(reception_age: u64, timestamp: u64, now: u64) -> (r: u64)
    ensures
        r == total_age(reception_age, timestamp, now),
{
    let offset: u64 = if now > timestamp { now - timestamp } else { 0 };
    reception_age.saturating_add(offset)
}

/// What clearing leaves of the constraints `s`: `LocalEndpoint` alone if it
/// was there, nothing otherwise.
pub open spec fn cleared(s: Set<Constraint>) -> Set<Constraint> {
    if s.contains(Constraint::LocalEndpoint) {
        set![Constraint::LocalEndpoint]
    } else {
        Set::empty()
    }
}

/// Adding a constraint twice leaves the same set as adding it once, and
/// removing a constraint that is absent changes nothing.
pub proof fn lemma_constraint_idempotence(s: Set<Constraint>, c: Constraint)
    ensures
        s.insert(c).insert(c) == s.insert(c),
        !s.contains(c) ==> s.remove(c) == s,
{
    assert(s.insert(c).insert(c) =~= s.insert(c));
    if !s.contains(c) {
        assert(s.remove(c) =~= s);
    }
}

/// Clearing keeps a `LocalEndpoint` hold and drops everything else: from
/// `{LocalEndpoint, ForwardPending}` it leaves `{LocalEndpoint}`, from
/// `{ForwardPending}` nothing.
pub proof fn lemma_local_endpoint_survives(s: Set<Constraint>)
    ensures
        s.contains(Constraint::LocalEndpoint) ==> cleared(s) == set![Constraint::LocalEndpoint],
        !s.contains(Constraint::LocalEndpoint) ==> cleared(s).is_empty(),
        cleared(set![Constraint::LocalEndpoint, Constraint::ForwardPending])
            == set![Constraint::LocalEndpoint],
        cleared(set![Constraint::ForwardPending]).is_empty(),
{
    assert(set![Constraint::LocalEndpoint, Constraint::ForwardPending].contains(Constraint::LocalEndpoint));
    assert(!set![Constraint::ForwardPending].contains(Constraint::LocalEndpoint));
}

/// The age only grows with time: it is at least the age at reception, a
/// later `now` never gives less, and with no time elapsed it is the age at
/// reception.
pub proof fn lemma_age_monotonic(reception_age: u64, timestamp: u64, now: u64, later: u64)
    requires
        now <= later,
    ensures
        total_age(reception_age, timestamp, now) >= reception_age,
        total_age(reception_age, timestamp, now) <= total_age(reception_age, timestamp, later),
        now <= timestamp ==> total_age(reception_age, timestamp, now) == reception_age,
{
}

/// An update is signalled only once per instant: after an update at `now`
/// wrote its age, a second update at the same `now` writes nothing. A
/// bundle received with age 1000 at `timestamp` is updated at
/// `timestamp + 500` to an age of at least 1500.
pub proof fn lemma_age_update_once(v: PackView, w: PackView, now: u64, age: u64)
    requires
        age_update(v, now) == Some(age),
        aged_to(v, w, age),
    ensures
        age_update(w, now) is None,
        v.reception_age == Some(1000u64) && age_in(v.bundle) == Some(1000u64)
            && v.timestamp <= u64::MAX - 500 && now == v.timestamp + 500 ==> age >= 1500,
{
}

/// The age in a bundle's age block never goes down: an update writes an
/// age above the one the block held, and none at all while no time has
/// elapsed since reception (a clock behind the timestamp included).
pub proof fn lemma_age_never_decreases(v: PackView, now: u64)
    ensures
        age_update(v, now) matches Some(a) ==> (age_in(v.bundle) matches Some(c) && a > c),
        now <= v.timestamp ==> age_update(v, now) is None,
{
}

/// The id of a pack depends on its bundle's primary block alone, and not on
/// when the pack was made: bundles with the same primary block, whatever
/// their payloads, give packs with equal ids.
pub proof fn lemma_id_stable(b1: Bundle, b2: Bundle, t1: u64, t2: u64)
    requires
        primary_of(b1) == primary_of(b2),
    ensures
        fresh_view(b1, t1).id == fresh_view(b2, t2).id,
{
}

/// Packs made from the bundle that one byte string decodes to have equal
/// ids, whenever they are made.
pub proof fn lemma_id_stable_for_bytes(bytes: Seq<u8>, t1: u64, t2: u64)
    requires
        decoded(bytes) is Some,
    ensures
        fresh_view(decoded(bytes)->0, t1).id == fresh_view(decoded(bytes)->0, t2).id,
{
}

/// One bundle with its reception metadata and its retention constraints.
#[derive(Debug, Clone, PartialEq)]
pub struct BundlePack {
    pub bundle: Bundle,
    pub receiver: EndpointID,
    timestamp: u64,
    id: String,
    pub size: usize,
    constraints: ConstraintSet,
    reception_age: Option<u64>,
}

impl View for BundlePack {
    type V = PackView;

    closed spec fn view(&self) -> PackView {
        PackView {
            bundle: self.bundle,
            receiver: self.receiver,
            id: self.id@,
            timestamp: self.timestamp,
            size: self.size,
            constraints: self.constraints@,
            reception_age: self.reception_age,
        }
    }
}

impl BundlePack {
    /// Wraps `bundle`, received at `timestamp` (milliseconds since the
    /// epoch), with no constraints. `None` where bp7 cannot encode the
    /// bundle because a block names a CRC type it cannot compute.
    pub fn from_bundle_at(bundle: Bundle, timestamp: u64) -> (r: Option<BundlePack>)
        ensures
            match r {
                Some(p) => encodable(bundle) && p@ == fresh_view(bundle, timestamp),
                None => !encodable(bundle),
            },
    {
        let known = crc_known(&bundle);
        let mut i: usize = 0;
        while i < known.len()
            invariant
                known@ == crc_known_of(bundle),
                i <= known@.len(),
                forall|j: int| 0 <= j < i ==> known@[j],
            decreases known@.len() - i,
        {
            if !known[i] {
                return None;
            }
            i = i + 1;
        }
        let id = bundle_id(&bundle);
        let size = encoded_len(&bundle);
        let receiver = destination_of(&bundle);
        let reception_age = stored_bundle_age(&bundle);
        let r = BundlePack {
            bundle,
            receiver,
            timestamp,
            id,
            size,
            constraints: ConstraintSet::new(),
            reception_age,
        };
        assert(r@ == fresh_view(bundle, timestamp));
        Some(r)
    }

    /// Wraps `bundle`, received now, with no constraints; a clock set before
    /// the epoch stamps it with 0.
    pub fn from_bundle(bundle: Bundle) -> (r: Option<BundlePack>)
        ensures
            match r {
                Some(p) => encodable(bundle) && p@ == fresh_view(bundle, p@.timestamp),
                None => !encodable(bundle),
            },
    {
        let now = match now_millis() {
            Some(t) => t,
            None => 0,
        };
        BundlePack::from_bundle_at(bundle, now)
    }

    /// An independent copy of the pack, with the same identity and state.
    pub fn snapshot(&self) -> (r: BundlePack)
        ensures
            r@ == self@,
    {
        BundlePack {
            bundle: self.bundle.clone(),
            receiver: self.receiver.clone(),
            timestamp: self.timestamp,
            id: self.id.clone(),
            size: self.size,
            constraints: self.constraints,
            reception_age: self.reception_age,
        }
    }

    pub fn id(&self) -> (r: &str)
        ensures
            r@ == self@.id,
    {
        self.id.as_str()
    }

    /// Reception time in milliseconds since the epoch, fixed at creation.
    pub fn timestamp(&self) -> (r: u64)
        ensures
            r == self@.timestamp,
    {
        self.timestamp
    }

    /// The id as an owned string, the key under which the pack is stored.
    pub fn key(&self) -> (r: &String)
        ensures
            r@ == self@.id,
    {
        &self.id
    }

    /// Whether the pack has a destination other than the null endpoint.
    pub fn has_receiver(&self) -> (r: bool)
        ensures
            r == !is_none_eid(self@.receiver),
    {
        !is_null_endpoint(&self.receiver)
    }

    pub fn has_constraint(&self, constraint: Constraint) -> (r: bool)
        ensures
            r == self@.constraints.contains(constraint),
    {
        self.constraints.contains(constraint)
    }

    pub fn has_constraints(&self) -> (r: bool)
        ensures
            r == !self@.constraints.is_empty(),
    {
        let e = self.constraints.is_empty();
        if !e {
            assert(self@.constraints !== Set::<Constraint>::empty());
            assert(!self@.constraints.is_empty());
        }
        !e
    }

    pub fn add_constraint(&mut self, constraint: Constraint)
        ensures
            final(self)@ == (PackView { constraints: old(self)@.constraints.insert(constraint), ..old(self)@ }),
    {
        self.constraints.insert(constraint);
    }

    pub fn remove_constraint(&mut self, constraint: Constraint)
        ensures
            final(self)@ == (PackView { constraints: old(self)@.constraints.remove(constraint), ..old(self)@ }),
    {
        self.constraints.remove(constraint);
    }

    /// Removes every constraint but `LocalEndpoint`, which stays if present.
    pub fn clear_constraints(&mut self)
        ensures
            final(self)@ == (PackView { constraints: cleared(old(self)@.constraints), ..old(self)@ }),
    {
        let local_set = self.has_constraint(Constraint::LocalEndpoint);
        self.constraints = ConstraintSet::new();
        if local_set {
            self.add_constraint(Constraint::LocalEndpoint);
            assert(self@.constraints =~= set![Constraint::LocalEndpoint]);
        }
    }

    /// Brings the bundle's age block, if it has one, up to `now`: its age at
    /// reception plus the time since reception. Returns the new age where it
    /// exceeds the one the block held; `None`, changing nothing, where it
    /// does not, where no time has elapsed since reception, and where the
    /// bundle had no age block when the pack was made.
    pub fn update_bundle_age_at(&mut self, now: u64) -> (r: Option<u64>)
        ensures
            r == age_update(old(self)@, now),
            match r {
                Some(a) => aged_to(old(self)@, final(self)@, a),
                None => final(self)@ == old(self)@,
            },
    {
        let base = match self.reception_age {
            Some(a) => a,
            None => return None,
        };
        match stored_bundle_age(&self.bundle) {
            Some(current) => {
                let a = age_after(base, self.timestamp, now);
                if now > self.timestamp && a > current {
                    write_bundle_age(&mut self.bundle, a);
                    Some(a)
                } else {
                    None
                }
            },
            None => None,
        }
    }

    /// Brings the bundle's age block, if it has one, up to the current time;
    /// nothing changes while the clock reads before the epoch.
    pub fn update_bundle_age(&mut self) -> (r: Option<u64>)
        ensures
            match r {
                Some(a) => (exists|now: u64| age_update(old(self)@, now) == Some(a))
                    && aged_to(old(self)@, final(self)@, a),
                None => final(self)@ == old(self)@,
            },
    {
        match now_millis() {
            Some(now) => self.update_bundle_age_at(now),
            None => None,
        }
    }
}

} // verus!
