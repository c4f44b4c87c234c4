use vstd::prelude::*;

use crate::servers::views;

verus! {

/// What a fan-out over several servers does once a call has failed.
#[derive(PartialEq, Eq, Structural, Clone, Copy, Debug)]
pub enum BatchPolicy {
    /// Stop at the first failed call; later servers are not called.
    AbortOnFirstFailure,
    /// Call every server and report the failures afterwards.
    ContinueAndCollect,
}

/// Whether any call so far has failed.
pub open spec fn has_failure(outcomes: Seq<bool>) -> bool {
    exists|i: int| 0 <= i < outcomes.len() && !outcomes[i]
}

/// No further call is to be made.
pub open spec fn finished(policy: BatchPolicy, n: nat, outcomes: Seq<bool>) -> bool {
    outcomes.len() >= n || (policy == BatchPolicy::AbortOnFirstFailure && has_failure(outcomes))
}

/// The server to call next, if any.
pub open spec fn next_call(targets: Seq<Seq<char>>, policy: BatchPolicy, outcomes: Seq<bool>) -> Option<
    Seq<char>,
> {
    if finished(policy, targets.len(), outcomes) {
        None
    } else {
        Some(targets[outcomes.len() as int])
    }
}

/// The servers whose call failed, in the order they were called.
pub open spec fn failed_of(targets: Seq<Seq<char>>, outcomes: Seq<bool>) -> Seq<Seq<char>>
    decreases outcomes.len(),
{
    if outcomes.len() == 0 {
        Seq::empty()
    } else {
        let rest = failed_of(targets, outcomes.drop_last());
        if outcomes.last() {
            rest
        } else {
            rest.push(targets[outcomes.len() - 1])
        }
    }
}

/// What the driver of a fan-out is to do next.
pub enum Step {
    /// Perform the operation on this server, then report the outcome.
    Call(String),
    /// Every call that the policy asks for has been made.
    Done,
}

/// The decisions of one fan-out of an operation over a list of servers: which
/// server is called next, and when to stop. Calls are made one at a time, in
/// the order of the list.
pub struct Dispatcher {
    targets: Vec<String>,
    policy: BatchPolicy,
    outcomes: Vec<bool>,
}

impl Dispatcher {
    pub closed spec fn targets_view(&self) -> Seq<Seq<char>> {
        views(self.targets@)
    }

    pub closed spec fn policy_view(&self) -> BatchPolicy {
        self.policy
    }

    /// Whether each call made so far succeeded, in order.
    pub closed spec fn outcomes_view(&self) -> Seq<bool> {
        self.outcomes@
    }

    pub closed spec fn wf(&self) -> bool {
        self.outcomes@.len() <= self.targets@.len()
    }

    /// A fan-out over `targets` that has made no call yet.
    pub fn new(targets: Vec<String>, policy: BatchPolicy) -> (r: Dispatcher)
        ensures
            r.wf(),
            r.targets_view() == views(targets@),
            r.policy_view() == policy,
            r.outcomes_view() == Seq::<bool>::empty(),
    {
        Dispatcher { targets, policy, outcomes: Vec::new() }
    }

    /// Whether some call so far has failed.
    pub fn any_failed(&self) -> (r: bool)
        ensures
            r == has_failure(self.outcomes_view()),
    {
        let mut i: usize = 0;
        while i < self.outcomes.len()
            invariant
                i <= self.outcomes@.len(),
                forall|j: int| 0 <= j < i ==> self.outcomes@[j],
            decreases self.outcomes@.len() - i,
        {
            if !self.outcomes[i] {
                return true;
            }
            i = i + 1;
        }
        false
    }

    /// Whether the policy asks for no further call.
    pub fn is_finished(&self) -> (r: bool)
        ensures
            r == finished(self.policy_view(), self.targets_view().len(), self.outcomes_view()),
    {
        self.outcomes.len() >= self.targets.len() || (self.policy
            == BatchPolicy::AbortOnFirstFailure && self.any_failed())
    }

    /// The server to call next, or `Done`.
    pub fn next_step(&self) -> (r: Step)
        requires
            self.wf(),
        ensures
            match r {
                Step::Call(s) => next_call(self.targets_view(), self.policy_view(), self.outcomes_view())
                    == Some(s@),
                Step::Done => next_call(
                    self.targets_view(),
                    self.policy_view(),
                    self.outcomes_view(),
                ) is None,
            },
    {
        if self.is_finished() {
            Step::Done
        } else {
            Step::Call(self.targets[self.outcomes.len()].clone())
        }
    }

    /// Takes note of the outcome of the call that `next_step` asked for.
    pub fn record(&mut self, ok: bool)
        requires
            old(self).wf(),
            !finished(old(self).policy_view(), old(self).targets_view().len(), old(self).outcomes_view()),
        ensures
            final(self).wf(),
            final(self).targets_view() == old(self).targets_view(),
            final(self).policy_view() == old(self).policy_view(),
            final(self).outcomes_view() == old(self).outcomes_view().push(ok),
    {
        self.outcomes.push(ok);
    }

    /// Whether every call made so far succeeded.
    pub fn succeeded(&self) -> (r: bool)
        ensures
            r == !has_failure(self.outcomes_view()),
    {
        !self.any_failed()
    }

    /// The servers whose call failed, in the order they were called.
    pub fn failed_servers(&self) -> (r: Vec<String>)
        requires
            self.wf(),
        ensures
            views(r@) == failed_of(self.targets_view(), self.outcomes_view()),
    {
        let mut r: Vec<String> = Vec::new();
        let mut i: usize = 0;
        while i < self.outcomes.len()
            invariant
                self.wf(),
                i <= self.outcomes@.len(),
                views(r@) == failed_of(self.targets_view(), self.outcomes@.take(i as int)),
            decreases self.outcomes@.len() - i,
        {
            let ghost before = r@;
            assert(self.outcomes@.take(i + 1).drop_last() =~= self.outcomes@.take(i as int));
            if !self.outcomes[i] {
                r.push(self.targets[i].clone());
                assert(views(r@) =~= views(before).push(self.targets@[i as int]@));
            }
            i = i + 1;
        }
        assert(self.outcomes@.take(self.outcomes@.len() as int) =~= self.outcomes@);
        r
    }
}

/// A fan-out over no server calls nothing and has no failure.
pub proof fn lemma_empty_dispatch(policy: BatchPolicy)
    ensures
        next_call(Seq::empty(), policy, Seq::empty()) is None,
        !has_failure(Seq::empty()),
        failed_of(Seq::empty(), Seq::empty()) == Seq::<Seq<char>>::empty(),
{
}

/// Under `AbortOnFirstFailure` no server is called after a failed call.
pub proof fn lemma_abort_stops(targets: Seq<Seq<char>>, outcomes: Seq<bool>)
    requires
        has_failure(outcomes),
    ensures
        next_call(targets, BatchPolicy::AbortOnFirstFailure, outcomes) is None,
{
}

/// Under `AbortOnFirstFailure` over `[a, b, c]`, where the call on `a` succeeds
/// and the one on `b` fails: `a` is called, then `b`, and `c` never is.
pub proof fn lemma_abort_three(a: Seq<char>, b: Seq<char>, c: Seq<char>)
    ensures
        next_call(seq![a, b, c], BatchPolicy::AbortOnFirstFailure, seq![]) == Some(a),
        next_call(seq![a, b, c], BatchPolicy::AbortOnFirstFailure, seq![true]) == Some(b),
        next_call(seq![a, b, c], BatchPolicy::AbortOnFirstFailure, seq![true, false]) is None,
{
    assert(seq![true][0]);
    assert(!seq![true, false][1]);
}

/// Under `ContinueAndCollect` every server is called, in order, whatever the
/// outcomes.
pub proof fn lemma_continue_calls_all(targets: Seq<Seq<char>>, outcomes: Seq<bool>)
    requires
        outcomes.len() < targets.len(),
    ensures
        next_call(targets, BatchPolicy::ContinueAndCollect, outcomes) == Some(
            targets[outcomes.len() as int],
        ),
{
}

} // verus!
