use vstd::prelude::*;

verus! {

/// A retention constraint: one reason why a bundle must still be kept.
#[derive(Debug, Clone, Copy, PartialEq, Eq, Hash, Structural)]
pub enum Constraint {
    /// The bundle has not been dispatched yet.
    DispatchPending,
    /// The bundle waits for, or is in, a forwarding attempt.
    ForwardPending,
    /// The bundle is a fragment waiting for reassembly.
    ReassemblyPending,
    /// Delivery or forwarding failed; the bundle waits for a decision.
    Contraindicated,
    /// The bundle was delivered to a local endpoint, which must release it.
    LocalEndpoint,
    /// The bundle was discarded; only its identity is kept.
    Deleted,
}

/// A set of constraints, one membership flag per variant.
#[derive(Debug, Clone, Copy, PartialEq, Eq)]
pub struct ConstraintSet {
    dispatch_pending: bool,
    forward_pending: bool,
    reassembly_pending: bool,
    contraindicated: bool,
    local_endpoint: bool,
    deleted: bool,
}

impl ConstraintSet {
    /// Whether the flag of `c` is set.
    pub closed spec fn holds(&self, c: Constraint) -> bool {
        match c {
            Constraint::DispatchPending => self.dispatch_pending,
            Constraint::ForwardPending => self.forward_pending,
            Constraint::ReassemblyPending => self.reassembly_pending,
            Constraint::Contraindicated => self.contraindicated,
            Constraint::LocalEndpoint => self.local_endpoint,
            Constraint::Deleted => self.deleted,
        }
    }
}

impl View for ConstraintSet {
    type V = Set<Constraint>;

    closed spec fn view(&self) -> Set<Constraint> {
        Set::new(|c: Constraint| self.holds(c))
    }
}

impl ConstraintSet {
    /// The empty set.
    pub fn new() -> (r: ConstraintSet)
        ensures
            r@ == Set::<Constraint>::empty(),
    {
        let r = ConstraintSet {
            dispatch_pending: false,
            forward_pending: false,
            reassembly_pending: false,
            contraindicated: false,
            local_endpoint: false,
            deleted: false,
        };
        assert(r@ =~= Set::<Constraint>::empty());
        r
    }

    pub fn contains(&self, c: Constraint) -> (r: bool)
        ensures
            r == self@.contains(c),
    {
        match c {
            Constraint::DispatchPending => self.dispatch_pending,
            Constraint::ForwardPending => self.forward_pending,
            Constraint::ReassemblyPending => self.reassembly_pending,
            Constraint::Contraindicated => self.contraindicated,
            Constraint::LocalEndpoint => self.local_endpoint,
            Constraint::Deleted => self.deleted,
        }
    }

    pub fn is_empty(&self) -> (r: bool)
        ensures
            r == (self@ == Set::<Constraint>::empty()),
    {
        let r = !(self.dispatch_pending || self.forward_pending || self.reassembly_pending
            || self.contraindicated || self.local_endpoint || self.deleted);
        if r {
            assert(self@ =~= Set::<Constraint>::empty());
        } else {
            let w = if self.dispatch_pending {
                Constraint::DispatchPending
            } else if self.forward_pending {
                Constraint::ForwardPending
            } else if self.reassembly_pending {
                Constraint::ReassemblyPending
            } else if self.contraindicated {
                Constraint::Contraindicated
            } else if self.local_endpoint {
                Constraint::LocalEndpoint
            } else {
                Constraint::Deleted
            };
            assert(self@.contains(w));
        }
        r
    }

    fn set_flag(&mut self, c: Constraint, v: bool)
        ensures
            forall|d: Constraint|
                #[trigger] final(self).holds(d) == if d == c {
                    v
                } else {
                    old(self).holds(d)
                },
    {
        match c {
            Constraint::DispatchPending => self.dispatch_pending = v,
            Constraint::ForwardPending => self.forward_pending = v,
            Constraint::ReassemblyPending => self.reassembly_pending = v,
            Constraint::Contraindicated => self.contraindicated = v,
            Constraint::LocalEndpoint => self.local_endpoint = v,
            Constraint::Deleted => self.deleted = v,
        }
    }

    pub fn insert(&mut self, c: Constraint)
        ensures
            final(self)@ == old(self)@.insert(c),
    {
        self.set_flag(c, true);
        assert(self@ =~= old(self)@.insert(c));
    }

    pub fn remove(&mut self, c: Constraint)
        ensures
            final(self)@ == old(self)@.remove(c),
    {
        self.set_flag(c, false);
        assert(self@ =~= old(self)@.remove(c));
    }
}

} // verus!
