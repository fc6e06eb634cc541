//! The function-interception engine.
//!
//! A registration binds one target entry point to one replacement handler
//! for the life of the process: registering the same target twice is
//! rejected, and redirection only takes effect once the registration is
//! explicitly enabled.  Several independent concerns may need to act on
//! one target; they form a chain of handlers consulted in priority order,
//! where each handler either handles the call outright or lets it fall
//! through to the next handler and finally to the original function.

use vstd::prelude::*;

verus! {

/// What one handler in a chain decided about an intercepted call.
#[derive(Clone, Copy, Debug, PartialEq, Eq, Structural)]
pub enum HookOutcome {
    /// The handler produced the call's result; nothing after it runs.
    Handled(u32),
    /// The handler declined; the call falls through.
    Continue,
}

/// How a chained interception resolved.
pub struct ChainDispatch {
    /// How many handlers were consulted, in order, each exactly once.
    pub consulted: usize,
    /// The result a handler produced, or `None` when the call fell
    /// through every handler and the original function must run.
    pub value: Option<u32>,
}

/// Index of the first handler that handles the call, if any.
pub open spec fn first_handled(s: Seq<HookOutcome>) -> Option<int>
    decreases s.len(),
{
    if s.len() == 0 {
        None
    } else if s[0] is Handled {
        Some(0)
    } else {
        match first_handled(s.drop_first()) {
            Some(i) => Some(i + 1),
            None => None,
        }
    }
}

/// Resolve a chain of handler decisions in priority order.
///
/// Handlers are consulted first to last; the first `Handled` outcome
/// short-circuits the chain, so neither the handlers after it nor the
/// original function run.  If every handler continues, the call reaches
/// the original function.
pub fn dispatch_chain(outcomes: &Vec<HookOutcome>) -> (r: ChainDispatch)
    ensures
        match first_handled(outcomes@) {
            Some(i) => {
                &&& r.consulted == i + 1
                &&& outcomes@[i] matches HookOutcome::Handled(v) && r.value == Some(v)
            },
            None => {
                &&& r.consulted == outcomes@.len()
                &&& r.value is None
            },
        },
{
    let mut i: usize = 0;
    while i < outcomes.len()
        invariant
            i <= outcomes@.len(),
            forall|j: int| 0 <= j < i ==> outcomes@[j] is Continue,
        decreases outcomes@.len() - i,
    {
        match outcomes[i] {
            HookOutcome::Handled(v) => {
                proof {
                    lemma_first_handled_at(outcomes@, i as int);
                }
                return ChainDispatch { consulted: i + 1, value: Some(v) };
            }
            HookOutcome::Continue => {
                i = i + 1;
            }
        }
    }
    proof {
        lemma_first_handled_none(outcomes@);
    }
    ChainDispatch { consulted: i, value: None }
}

proof fn lemma_first_handled_at(s: Seq<HookOutcome>, i: int)
    requires
        0 <= i < s.len(),
        s[i] is Handled,
        forall|j: int| 0 <= j < i ==> s[j] is Continue,
    ensures
        first_handled(s) == Some(i),
    decreases s.len(),
{
    if i > 0 {
        lemma_first_handled_at(s.drop_first(), i - 1);
    }
}

proof fn lemma_first_handled_none(s: Seq<HookOutcome>)
    requires
        forall|j: int| 0 <= j < s.len() ==> s[j] is Continue,
    ensures
        first_handled(s) is None,
    decreases s.len(),
{
    if s.len() > 0 {
        lemma_first_handled_none(s.drop_first());
    }
}

/// Chained handlers short-circuit exactly as the engine promises: when
/// the first handler handles the call, no later handler and not the
/// original function runs; when a handler continues, the call falls
/// through to the next stage exactly once.
pub proof fn lemma_chain_short_circuit(s: Seq<HookOutcome>)
    requires
        s.len() >= 1,
    ensures
        s[0] matches HookOutcome::Handled(v) ==> first_handled(s) == Some(0int),
        s[0] is Continue ==> first_handled(s) == match first_handled(s.drop_first()) {
            Some(i) => Some(i + 1),
            None => None::<int>,
        },
{
}

/// Error paths of the interception engine.
#[derive(Clone, Copy, Debug, PartialEq, Eq, Structural)]
pub enum HookError {
    /// The target already has its one process-lifetime registration.
    AlreadyRegistered,
    /// The target has no registration.
    NotRegistered,
}

/// One installed interception: a target entry point, the handler that
/// replaces it, and whether redirection is currently active.  The target
/// address itself remains the callable path to the original behavior.
pub struct HookRegistration {
    pub target: u64,
    pub handler: u64,
    pub enabled: bool,
}

/// The process-wide table of interceptions, at most one per target.
pub struct HookRegistry {
    regs: Vec<HookRegistration>,
}

impl HookRegistry {
    /// Every target has at most one registration.
    pub closed spec fn wf(self) -> bool {
        forall|i: int, j: int|
            0 <= i < j < self.regs@.len() ==> self.regs@[i].target != self.regs@[j].target
    }

    /// Whether `target` has a registration.
    pub closed spec fn registered(self, target: u64) -> bool {
        exists|i: int| 0 <= i < self.regs@.len() && self.regs@[i].target == target
    }

    /// The registration bound to `target`.
    pub closed spec fn registration_of(self, target: u64) -> HookRegistration {
        self.regs@[choose|i: int|
            0 <= i < self.regs@.len() && self.regs@[i].target == target]
    }

    /// Where a call to `target` goes: to its handler once a registration
    /// is enabled, and to the unmodified target otherwise.
    pub open spec fn spec_route(self, target: u64) -> u64 {
        if self.registered(target) && self.registration_of(target).enabled {
            self.registration_of(target).handler
        } else {
            target
        }
    }

    /// An empty registry.
    pub fn new() -> (r: Self)
        ensures
            r.wf(),
            forall|t: u64| !r.registered(t),
    {
        HookRegistry { regs: Vec::new() }
    }

    fn find(&self, target: u64) -> (r: Option<usize>)
        requires
            self.wf(),
        ensures
            match r {
                Some(i) => i < self.regs@.len() && self.regs@[i as int].target == target
                    && self.registered(target)
                    && self.registration_of(target) == self.regs@[i as int],
                None => !self.registered(target),
            },
    {
        let mut i: usize = 0;
        while i < self.regs.len()
            invariant
                self.wf(),
                i <= self.regs@.len(),
                forall|j: int| 0 <= j < i ==> self.regs@[j].target != target,
            decreases self.regs@.len() - i,
        {
            if self.regs[i].target == target {
                proof {
                    let w = choose|k: int|
                        0 <= k < self.regs@.len() && self.regs@[k].target == target;
                    assert(w == i);
                }
                return Some(i);
            }
            i = i + 1;
        }
        None
    }

    /// Install the one registration `target` will ever have.
    ///
    /// Registration starts disabled: until [`Self::enable`] is called the
    /// target routes to itself, unmodified.  A second registration for
    /// the same target is rejected and changes nothing.
    pub fn register(&mut self, target: u64, handler: u64) -> (r: Result<(), HookError>)
        requires
            old(self).wf(),
        ensures
            final(self).wf(),
            old(self).registered(target) ==> {
                &&& r == Err::<(), HookError>(HookError::AlreadyRegistered)
                &&& *final(self) == *old(self)
            },
            !old(self).registered(target) ==> {
                &&& r == Ok::<(), HookError>(())
                &&& final(self).registered(target)
                &&& final(self).registration_of(target) == (HookRegistration {
                    target,
                    handler,
                    enabled: false,
                })
                &&& forall|t: u64| t != target ==>
                    final(self).registered(t) == old(self).registered(t)
                &&& forall|t: u64| t != target && old(self).registered(t) ==>
                    final(self).registration_of(t) == old(self).registration_of(t)
            },
    {
        if self.find(target).is_some() {
            return Err(HookError::AlreadyRegistered);
        }
        let ghost pre = *self;
        self.regs.push(HookRegistration { target, handler, enabled: false });
        proof {
            let n = pre.regs@.len() as int;
            assert(self.regs@ =~= pre.regs@.push(
                HookRegistration { target, handler, enabled: false },
            ));
            assert(forall|t: u64| #[trigger] pre.registered(t) ==> self.registered(t))
                by {
                assert forall|t: u64| #[trigger] pre.registered(t) implies self.registered(t)
                    by {
                    let i = choose|i: int|
                        0 <= i < pre.regs@.len() && pre.regs@[i].target == t;
                    assert(self.regs@[i].target == t);
                }
            }
            assert(self.regs@[n].target == target);
            assert forall|t: u64| t != target && pre.registered(t) implies
                self.registration_of(t) == pre.registration_of(t) by {
                let i = choose|i: int|
                    0 <= i < self.regs@.len() && self.regs@[i].target == t;
                let j = choose|i: int|
                    0 <= i < pre.regs@.len() && pre.regs@[i].target == t;
                assert(self.regs@[j].target == t);
                assert(i == j);
            }
        }
        Ok(())
    }

    /// Activate redirection for `target`.  From now on the registry
    /// routes the target's calls to the registered handler.
    pub fn enable(&mut self, target: u64) -> (r: Result<(), HookError>)
        requires
            old(self).wf(),
        ensures
            final(self).wf(),
            !old(self).registered(target) ==> {
                &&& r == Err::<(), HookError>(HookError::NotRegistered)
                &&& *final(self) == *old(self)
            },
            old(self).registered(target) ==> {
                &&& r == Ok::<(), HookError>(())
                &&& final(self).registered(target)
                &&& final(self).registration_of(target) == (HookRegistration {
                    enabled: true,
                    ..old(self).registration_of(target)
                })
                &&& forall|t: u64| final(self).registered(t) == old(self).registered(t)
                &&& forall|t: u64| t != target && old(self).registered(t) ==>
                    final(self).registration_of(t) == old(self).registration_of(t)
            },
    {
        let found = self.find(target);
        match found {
            None => Err(HookError::NotRegistered),
            Some(i) => {
                let ghost pre = *self;
                let handler = self.regs[i].handler;
                self.regs.set(i, HookRegistration { target, handler, enabled: true });
                proof {
                    assert forall|t: u64| pre.registered(t) implies self.registered(t) by {
                        let j = choose|j: int|
                            0 <= j < pre.regs@.len() && pre.regs@[j].target == t;
                        assert(self.regs@[j].target == t);
                    }
                    assert forall|t: u64| self.registered(t) implies pre.registered(t) by {
                        let j = choose|j: int|
                            0 <= j < self.regs@.len() && self.regs@[j].target == t;
                        assert(pre.regs@[j].target == t);
                    }
                    assert forall|t: u64| t != target && pre.registered(t) implies
                        self.registration_of(t) == pre.registration_of(t) by {
                        let a = choose|a: int|
                            0 <= a < self.regs@.len() && self.regs@[a].target == t;
                        let b = choose|b: int|
                            0 <= b < pre.regs@.len() && pre.regs@[b].target == t;
                        assert(self.regs@[b].target == t);
                        assert(a == b);
                        assert(a != i);
                    }
                    let w = choose|w: int|
                        0 <= w < self.regs@.len() && self.regs@[w].target == target;
                    assert(pre.regs@[w].target == target);
                    assert(w == i);
                }
                Ok(())
            }
        }
    }

    /// Where a call to `target` currently goes.
    pub fn route(&self, target: u64) -> (r: u64)
        requires
            self.wf(),
        ensures
            r == self.spec_route(target),
    {
        match self.find(target) {
            Some(i) => {
                let reg = &self.regs[i];
                if reg.enabled {
                    reg.handler
                } else {
                    target
                }
            }
            None => target,
        }
    }
}

} // verus!
