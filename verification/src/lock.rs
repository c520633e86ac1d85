//! The single-core locking discipline for resources shared between the
//! foreground loop and interrupt handlers.
//!
//! Execution contexts are ranked by a fixed priority (the foreground loop is
//! the lowest). A shared resource carries a ceiling: the highest priority of
//! any context that may touch it. A context enters a critical section over
//! the resource with [`CeilingLock::try_enter`]; while another context is
//! inside, the request is deferred (`false`) rather than spun on, which on a
//! single core models ceiling-style exclusion: the contender resumes only
//! after the holder leaves.
//!
//! A sensor handle needs no such lock object here: handing a context the
//! exclusive `&mut` borrow *is* its access token, scoped to the access and
//! returned when the borrow ends. The status indicator is different — every
//! context names it — so it carries the explicit lock.
//!
//! [`SharedIndicator`] applies the discipline to the status indicator. Every
//! read and write of the indicator demands the critical section, a write
//! replaces the whole value, and the ghost history `written` records every
//! value ever set — which is what makes "no torn value is ever observed"
//! a provable statement rather than a convention.

use vstd::prelude::*;

use crate::indicator::{cycled, State};

verus! {

/// A priority-ceiling critical-section token for one shared resource group.
pub struct CeilingLock {
    ceiling: u8,
    holder: Option<u8>,
}

impl CeilingLock {
    /// The highest priority of any context that may contend for the
    /// resource.
    pub closed spec fn spec_ceiling(&self) -> u8 {
        self.ceiling
    }

    /// The priority of the context currently inside the critical section.
    pub closed spec fn spec_holder(&self) -> Option<u8> {
        self.holder
    }

    pub open spec fn is_free(&self) -> bool {
        self.spec_holder() is None
    }

    pub open spec fn held_by(&self, prio: u8) -> bool {
        self.spec_holder() == Some(prio)
    }

    /// A fresh lock: nobody inside.
    pub fn new(ceiling: u8) -> (l: Self)
        ensures
            l.is_free(),
            l.spec_ceiling() == ceiling,
    {
        CeilingLock { ceiling, holder: None }
    }

    /// Ask to enter the critical section at priority `prio`. Granted exactly
    /// when nobody is inside; otherwise the request is deferred and nothing
    /// changes.
    pub fn try_enter(&mut self, prio: u8) -> (granted: bool)
        requires
            prio <= old(self).spec_ceiling(),
        ensures
            granted <==> old(self).is_free(),
            granted ==> final(self).held_by(prio),
            !granted ==> *final(self) == *old(self),
            final(self).spec_ceiling() == old(self).spec_ceiling(),
    {
        match self.holder {
            None => {
                self.holder = Some(prio);
                true
            }
            Some(_) => false,
        }
    }

    /// The priority of the current holder, if any.
    pub fn holder_value(&self) -> (h: Option<u8>)
        ensures
            h == self.spec_holder(),
    {
        self.holder
    }

    /// The lock's priority ceiling.
    pub fn ceiling_value(&self) -> (c: u8)
        ensures
            c == self.spec_ceiling(),
    {
        self.ceiling
    }

    /// Leave the critical section. Only the holder may leave.
    pub fn exit(&mut self, prio: u8)
        requires
            old(self).held_by(prio),
        ensures
            final(self).is_free(),
            final(self).spec_ceiling() == old(self).spec_ceiling(),
    {
        self.holder = None;
    }
}

/// The status indicator together with the lock that guards it and the ghost
/// history of every value explicitly set.
pub struct SharedIndicator {
    value: State,
    lock: CeilingLock,
    writes: Ghost<Seq<State>>,
}

impl SharedIndicator {
    /// The value the indicator currently shows.
    pub closed spec fn value_now(&self) -> State {
        self.value
    }

    /// Every value the indicator has ever been set to, the initial one
    /// first.
    pub closed spec fn written(&self) -> Seq<State> {
        self.writes@
    }

    pub closed spec fn ceiling(&self) -> u8 {
        self.lock.spec_ceiling()
    }

    pub closed spec fn holder(&self) -> Option<u8> {
        self.lock.spec_holder()
    }

    pub open spec fn is_free(&self) -> bool {
        self.holder() is None
    }

    pub open spec fn held_by(&self, prio: u8) -> bool {
        self.holder() == Some(prio)
    }

    /// The current value is always the most recently written one — writes
    /// replace the value whole, so no blend of two writes can ever show.
    pub open spec fn wf(&self) -> bool {
        self.written().len() >= 1 && self.written().last() == self.value_now()
    }

    /// A fresh shared indicator showing `initial`, lock free.
    pub fn new(initial: State, ceiling: u8) -> (s: Self)
        ensures
            s.wf(),
            s.is_free(),
            s.ceiling() == ceiling,
            s.value_now() == initial,
            s.written() == seq![initial],
    {
        let writes: Ghost<Seq<State>> = Ghost(Seq::empty().push(initial));
        SharedIndicator { value: initial, lock: CeilingLock::new(ceiling), writes }
    }

    /// Ask to enter the indicator's critical section; deferred (nothing
    /// changes) while another context is inside.
    pub fn try_enter(&mut self, prio: u8) -> (granted: bool)
        requires
            prio <= old(self).ceiling(),
        ensures
            granted <==> old(self).is_free(),
            granted ==> final(self).held_by(prio),
            !granted ==> *final(self) == *old(self),
            final(self).ceiling() == old(self).ceiling(),
            final(self).value_now() == old(self).value_now(),
            final(self).written() == old(self).written(),
    {
        self.lock.try_enter(prio)
    }

    /// Leave the critical section.
    pub fn exit(&mut self, prio: u8)
        requires
            old(self).held_by(prio),
        ensures
            final(self).is_free(),
            final(self).ceiling() == old(self).ceiling(),
            final(self).value_now() == old(self).value_now(),
            final(self).written() == old(self).written(),
    {
        self.lock.exit(prio);
    }

    /// Set the indicator, whole, from inside the critical section.
    pub fn set(&mut self, prio: u8, v: State)
        requires
            old(self).held_by(prio),
        ensures
            final(self).wf(),
            final(self).held_by(prio),
            final(self).ceiling() == old(self).ceiling(),
            final(self).value_now() == v,
            final(self).written() == old(self).written().push(v),
    {
        self.value = v;
        self.writes = Ghost(self.writes@.push(v));
    }

    /// Toggle the indicator (the heartbeat step) from inside the critical
    /// section.
    pub fn toggle(&mut self, prio: u8)
        requires
            old(self).held_by(prio),
        ensures
            final(self).wf(),
            final(self).held_by(prio),
            final(self).ceiling() == old(self).ceiling(),
            final(self).value_now() == cycled(old(self).value_now()),
            final(self).written() == old(self).written().push(cycled(old(self).value_now())),
    {
        let mut v = self.value;
        v.cycle();
        self.set(prio, v);
    }

    /// Whether some context is currently inside the critical section.
    pub fn locked(&self) -> (b: bool)
        ensures
            b == !self.is_free(),
    {
        match self.lock.holder_value() {
            Some(_) => true,
            None => false,
        }
    }

    /// The resource's priority ceiling.
    pub fn ceiling_value(&self) -> (c: u8)
        ensures
            c == self.ceiling(),
    {
        self.lock.ceiling_value()
    }

    /// Observe the indicator from inside the critical section.
    pub fn get(&self, prio: u8) -> (r: State)
        requires
            self.held_by(prio),
        ensures
            r == self.value_now(),
    {
        self.value
    }
}

/// Law (no torn observation): whatever a context observes in the indicator
/// while holding the critical section is a value some context explicitly set
/// (the history includes the initial value). There is no intermediate,
/// blended value.
pub proof fn lemma_observed_value_was_written(s: &SharedIndicator)
    requires
        s.wf(),
    ensures
        s.written().contains(s.value_now()),
{
    assert(s.written()[s.written().len() - 1] == s.value_now());
}

} // verus!
