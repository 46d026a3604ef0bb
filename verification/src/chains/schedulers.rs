//! Schedulers: which agent acts next.

use vstd::prelude::*;

use crate::chains::{Agent, Error};

verus! {

/// Can agents be called: there are some, and all of them are ready?
pub open spec fn members_ready<A: Agent>(members: Seq<A>) -> bool {
    &&& members.len() > 0
    &&& forall|i: int| 0 <= i < members.len() ==> #[trigger] members[i].ready()
}

/// A scheduler: it picks the next agent to be called, among its members.
pub trait Scheduler {
    /// The agents the scheduler picks among.
    type Member: Agent;

    /// The agents, by their index.
    spec fn members(&self) -> Seq<Self::Member>;

    /// The number of steps the scheduler may still take.
    spec fn remaining_steps(&self) -> nat;

    /// Can the scheduler call its agents?
    fn is_ready(&self) -> (b: bool)
        ensures
            b == members_ready(self.members()),
    ;

    /// Pick the next agent to be called and return its index; once all the
    /// steps are taken, fail with [`Error::MaxStepsReached`].
    fn schedule(&mut self) -> (r: Result<usize, Error>)
        requires
            old(self).members().len() > 0,
        ensures
            final(self).members() == old(self).members(),
            old(self).remaining_steps() == 0 ==> (r matches Err(Error::MaxStepsReached) && final(self).remaining_steps()
                == 0),
            old(self).remaining_steps() > 0 ==> (r matches Ok(k) && k < old(self).members().len()
                && final(self).remaining_steps() == old(self).remaining_steps() - 1),
    ;

    /// The agent of the given index.
    fn member(&self, k: usize) -> (a: &Self::Member)
        requires
            k < self.members().len(),
        ensures
            *a == self.members()[k as int],
    ;
}

/// A scheduler with a single agent and a maximum number of steps: it always
/// schedules that agent.
pub struct SingleAgentScheduler<A> {
    remaining_steps: usize,
    agent: A,
}

impl<A: Agent> SingleAgentScheduler<A> {
    /// The agent.
    pub closed spec fn agent(&self) -> A {
        self.agent
    }

    /// Create a new scheduler with a maximum number of steps and an agent.
    pub fn new(max_steps: usize, agent: A) -> (s: Self)
        ensures
            s.remaining_steps() == max_steps,
            s.agent() == agent,
    {
        SingleAgentScheduler { remaining_steps: max_steps, agent }
    }
}

impl<A: Agent> Scheduler for SingleAgentScheduler<A> {
    type Member = A;

    open spec fn members(&self) -> Seq<A> {
        seq![self.agent()]
    }

    closed spec fn remaining_steps(&self) -> nat {
        self.remaining_steps as nat
    }

    fn is_ready(&self) -> (b: bool) {
        let b = self.agent.is_ready();
        proof {
            if b {
                assert forall|i: int| 0 <= i < self.members().len() implies #[trigger] self.members()[i].ready() by {
                    assert(self.members()[i] == self.agent());
                }
            } else {
                assert(!self.members()[0].ready());
            }
        }
        b
    }

    /// The agent, while steps remain.
    fn schedule(&mut self) -> (r: Result<usize, Error>)
        ensures
            r is Ok ==> r == Ok::<usize, Error>(0),
            single_schedule(*old(self), *final(self), r),
    {
        if self.remaining_steps == 0 {
            return Err(Error::MaxStepsReached);
        }
        self.remaining_steps = self.remaining_steps - 1;
        Ok(0)
    }

    fn member(&self, k: usize) -> (a: &A) {
        &self.agent
    }
}

/// A scheduler that calls its agents in turn, in a fixed order, for a
/// maximum number of steps.
pub struct MultiAgentScheduler<A> {
    remaining_steps: usize,
    next_agent: usize,
    agents: Vec<A>,
}

impl<A: Agent> MultiAgentScheduler<A> {
    /// The agents, in the order they are called.
    pub closed spec fn agents(&self) -> Seq<A> {
        self.agents@
    }

    /// The index of the agent the next step calls.
    pub closed spec fn turn(&self) -> nat {
        if self.next_agent >= self.agents@.len() {
            0
        } else {
            self.next_agent as nat
        }
    }

    /// Create a new scheduler with a maximum number of steps and a list of
    /// agents; the first agent is called first.
    pub fn new(max_steps: usize, agents: Vec<A>) -> (s: Self)
        ensures
            s.remaining_steps() == max_steps,
            s.agents() == agents@,
            s.turn() == 0,
    {
        MultiAgentScheduler { remaining_steps: max_steps, next_agent: 0, agents }
    }
}

impl<A: Agent> Scheduler for MultiAgentScheduler<A> {
    type Member = A;

    open spec fn members(&self) -> Seq<A> {
        self.agents()
    }

    closed spec fn remaining_steps(&self) -> nat {
        self.remaining_steps as nat
    }

    fn is_ready(&self) -> (b: bool) {
        if self.agents.len() == 0 {
            return false;
        }
        for i in 0..self.agents.len()
            invariant
                forall|j: int| 0 <= j < i ==> #[trigger] self.agents()[j].ready(),
        {
            if !self.agents[i].is_ready() {
                return false;
            }
        }
        true
    }

    /// The agent whose turn it is; the turn then passes to the next agent,
    /// and from the last one back to the first.
    fn schedule(&mut self) -> (r: Result<usize, Error>)
        ensures
            old(self).remaining_steps() == 0 ==> final(self).turn() == old(self).turn(),
            old(self).remaining_steps() > 0 ==> {
                &&& r == Ok::<usize, Error>(old(self).turn() as usize)
                &&& final(self).turn() == (old(self).turn() + 1) % old(self).agents().len()
            },
            multi_schedule(*old(self), *final(self), r),
    {
        if self.remaining_steps == 0 {
            return Err(Error::MaxStepsReached);
        }
        self.remaining_steps = self.remaining_steps - 1;
        if self.next_agent >= self.agents.len() {
            self.next_agent = 0;
        }
        let k = self.next_agent;
        self.next_agent = k + 1;
        proof {
            let len = self.agents@.len();
            if k + 1 < len {
                vstd::arithmetic::div_mod::lemma_small_mod((k + 1) as nat, len);
            } else {
                vstd::arithmetic::div_mod::lemma_mod_self_0(len as int);
            }
        }
        Ok(k)
    }

    fn member(&self, k: usize) -> (a: &A) {
        &self.agents[k]
    }
}

/// What a call of `schedule` does to a single-agent scheduler: while steps
/// remain, it picks the agent and takes a step; then it fails with
/// `MaxStepsReached`.
pub open spec fn single_schedule<A: Agent>(
    before: SingleAgentScheduler<A>,
    after: SingleAgentScheduler<A>,
    r: Result<usize, Error>,
) -> bool {
    &&& after.agent() == before.agent()
    &&& before.remaining_steps() == 0 ==> (r matches Err(Error::MaxStepsReached) && after.remaining_steps() == 0)
    &&& before.remaining_steps() > 0 ==> (r == Ok::<usize, Error>(0) && after.remaining_steps()
        == before.remaining_steps() - 1)
}

/// What a call of `schedule` does to a multi-agent scheduler: while steps
/// remain, it picks the agent whose turn it is, passes the turn to the next
/// one and takes a step; then it fails with `MaxStepsReached` and leaves
/// the turn.
pub open spec fn multi_schedule<A: Agent>(
    before: MultiAgentScheduler<A>,
    after: MultiAgentScheduler<A>,
    r: Result<usize, Error>,
) -> bool {
    &&& after.agents() == before.agents()
    &&& before.remaining_steps() == 0 ==> (r matches Err(Error::MaxStepsReached) && after.remaining_steps() == 0
        && after.turn() == before.turn())
    &&& before.remaining_steps() > 0 ==> {
        &&& r == Ok::<usize, Error>(before.turn() as usize)
        &&& after.turn() == (before.turn() + 1) % before.agents().len()
        &&& after.remaining_steps() == before.remaining_steps() - 1
    }
}

/// A single-agent scheduler allowed `n` steps lets its agent act at most
/// `n` times: over the calls of `schedule` made one after the other on it,
/// the call numbered `k` (from 0) picks the agent while `k < n`, and fails
/// with `MaxStepsReached` from then on.
pub proof fn lemma_single_agent_steps<A: Agent>(
    states: Seq<SingleAgentScheduler<A>>,
    results: Seq<Result<usize, Error>>,
)
    requires
        states.len() == results.len() + 1,
        forall|i: int| 0 <= i < results.len() ==> single_schedule(states[i], states[i + 1], #[trigger] results[i]),
    ensures
        forall|k: int| 0 <= k < results.len() ==> {
            &&& k < states[0].remaining_steps() ==> #[trigger] results[k] == Ok::<usize, Error>(0)
            &&& k >= states[0].remaining_steps() ==> results[k] matches Err(Error::MaxStepsReached)
        },
{
    assert forall|k: int| 0 <= k < results.len() implies {
        &&& k < states[0].remaining_steps() ==> #[trigger] results[k] == Ok::<usize, Error>(0)
        &&& k >= states[0].remaining_steps() ==> results[k] matches Err(Error::MaxStepsReached)
    } by {
        lemma_single_steps_left(states, results, k);
        assert(single_schedule(states[k], states[k + 1], results[k]));
    }
}

/// After `k` calls, the steps left: those allowed, less the calls made,
/// down to none.
proof fn lemma_single_steps_left<A: Agent>(
    states: Seq<SingleAgentScheduler<A>>,
    results: Seq<Result<usize, Error>>,
    k: int,
)
    requires
        states.len() == results.len() + 1,
        forall|i: int| 0 <= i < results.len() ==> single_schedule(states[i], states[i + 1], #[trigger] results[i]),
        0 <= k <= results.len(),
    ensures
        states[k].remaining_steps() == if k <= states[0].remaining_steps() {
            states[0].remaining_steps() - k
        } else {
            0
        },
    decreases k,
{
    if k > 0 {
        lemma_single_steps_left(states, results, k - 1);
        assert(single_schedule(states[k - 1], states[k], results[k - 1]));
    }
}

/// The multi-agent scheduler calls its agents in turn, and at most `n`
/// times: over the calls of `schedule` made one after the other on a
/// scheduler allowed `n` steps, whose turn is at the first of its `a`
/// agents (as `new` makes it), the call numbered `k` (from 0) picks the
/// agent `k` modulo `a` while `k < n`, and fails with `MaxStepsReached`
/// from then on.
pub proof fn lemma_multi_agent_turns<A: Agent>(
    states: Seq<MultiAgentScheduler<A>>,
    results: Seq<Result<usize, Error>>,
)
    requires
        states.len() == results.len() + 1,
        states[0].turn() == 0,
        states[0].agents().len() > 0,
        forall|i: int| 0 <= i < results.len() ==> multi_schedule(states[i], states[i + 1], #[trigger] results[i]),
    ensures
        forall|k: int| 0 <= k < results.len() ==> {
            &&& k < states[0].remaining_steps() ==> #[trigger] results[k] == Ok::<usize, Error>(
                (k % (states[0].agents().len() as int)) as usize,
            )
            &&& k >= states[0].remaining_steps() ==> results[k] matches Err(Error::MaxStepsReached)
        },
{
    let a = states[0].agents().len() as int;
    assert forall|k: int| 0 <= k < results.len() implies {
        &&& k < states[0].remaining_steps() ==> #[trigger] results[k] == Ok::<usize, Error>((k % a) as usize)
        &&& k >= states[0].remaining_steps() ==> results[k] matches Err(Error::MaxStepsReached)
    } by {
        lemma_multi_state(states, results, k);
        assert(multi_schedule(states[k], states[k + 1], results[k]));
    }
}

/// After `k` calls: the same agents, the steps allowed less the calls made
/// (down to none), and the turn at the agent numbered by the calls that
/// found steps left, modulo the number of agents.
proof fn lemma_multi_state<A: Agent>(
    states: Seq<MultiAgentScheduler<A>>,
    results: Seq<Result<usize, Error>>,
    k: int,
)
    requires
        states.len() == results.len() + 1,
        states[0].turn() == 0,
        states[0].agents().len() > 0,
        forall|i: int| 0 <= i < results.len() ==> multi_schedule(states[i], states[i + 1], #[trigger] results[i]),
        0 <= k <= results.len(),
    ensures
        states[k].agents() == states[0].agents(),
        k <= states[0].remaining_steps() ==> {
            &&& states[k].remaining_steps() == states[0].remaining_steps() - k
            &&& states[k].turn() == k % (states[0].agents().len() as int)
        },
        k > states[0].remaining_steps() ==> states[k].remaining_steps() == 0,
    decreases k,
{
    let a = states[0].agents().len() as int;
    if k > 0 {
        lemma_multi_state(states, results, k - 1);
        assert(multi_schedule(states[k - 1], states[k], results[k - 1]));
        if k <= states[0].remaining_steps() {
            let x = k - 1;
            assert(states[k].turn() == (x % a + 1) % a);
            vstd::arithmetic::div_mod::lemma_add_mod_noop(x, 1, a);
            if a > 1 {
                vstd::arithmetic::div_mod::lemma_small_mod(1, a as nat);
            } else {
                assert((x % 1 + 1) % 1 == 0);
                assert((x + 1) % 1 == 0);
            }
        }
    } else {
        vstd::arithmetic::div_mod::lemma_small_mod(0, a as nat);
    }
}

} // verus!
