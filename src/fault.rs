//! The core's fault state: it runs until an unrecoverable fault, and a fault
//! parks it for good.
use vstd::prelude::*;

verus! {

/// Where the core stands: executing normally, or halted after a fault.
#[derive(Clone, Copy, Debug, PartialEq, Eq, Structural)]
pub enum CoreState {
    Running,
    Faulted,
}

/// What the execution context does in a state.
#[derive(Clone, Copy, Debug, PartialEq, Eq, Structural)]
pub enum Action {
    /// Go on executing.
    Proceed,
    /// Spin in place forever: never return, never unwind.
    Park,
}

/// The state after one step: a fault moves the core to `Faulted`, and nothing
/// else changes its state.
pub open spec fn next_state(s: CoreState, fault_raised: bool) -> CoreState {
    if fault_raised {
        CoreState::Faulted
    } else {
        s
    }
}

/// The state after a run of steps, one per entry of `faults`.
pub open spec fn run(s: CoreState, faults: Seq<bool>) -> CoreState
    decreases faults.len(),
{
    if faults.len() == 0 {
        s
    } else {
        run(next_state(s, faults[0]), faults.drop_first())
    }
}

/// The action taken in a state.
pub open spec fn action_in(s: CoreState) -> Action {
    match s {
        CoreState::Running => Action::Proceed,
        CoreState::Faulted => Action::Park,
    }
}

impl Default for CoreState {
    /// The core starts out running.
    fn default() -> (r: CoreState)
        ensures
            r == CoreState::Running,
    {
        CoreState::Running
    }
}

/// Takes one step from `state`; `fault_raised` tells whether an unrecoverable
/// fault occurred during it.
pub fn step(state: CoreState, fault_raised: bool) -> (r: CoreState)
    ensures
        r == next_state(state, fault_raised),
{
    if fault_raised {
        CoreState::Faulted
    } else {
        state
    }
}

/// The action the execution context takes in `state`.
pub fn action(state: CoreState) -> (a: Action)
    ensures
        a == action_in(state),
{
    match state {
        CoreState::Running => Action::Proceed,
        CoreState::Faulted => Action::Park,
    }
}

/// A fault is terminal: once the core has faulted, no run of further steps,
/// with or without faults, brings it back, and in every state it reaches it
/// parks.
pub proof fn lemma_faulted_is_terminal(faults: Seq<bool>)
    ensures
        run(CoreState::Faulted, faults) == CoreState::Faulted,
        action_in(run(CoreState::Faulted, faults)) == Action::Park,
    decreases faults.len(),
{
    if faults.len() > 0 {
        lemma_faulted_is_terminal(faults.drop_first());
    }
}

/// The core leaves `Running` only through a fault: a run without faults keeps
/// it running.
pub proof fn lemma_running_without_fault(faults: Seq<bool>)
    requires
        forall|i: int| 0 <= i < faults.len() ==> !faults[i],
    ensures
        run(CoreState::Running, faults) == CoreState::Running,
    decreases faults.len(),
{
    if faults.len() > 0 {
        assert(!faults[0]);
        lemma_running_without_fault(faults.drop_first());
    }
}

} // verus!
