//! What holds of every run of a backend's task.
//!
//! A run is the sequence of events that the task of one backend meets, from
//! the state in which it begins. The functions here say which states the run
//! announces and where it leaves the backend; the lemmas state what all runs
//! have in common.

use crate::drone::executor::{
    run_spec, valid_transition, Signal, StepCall, StepReply, TaskEvent, TaskNext, TaskOutput,
};
use crate::messages::agent::BackendState;
use vstd::prelude::*;

verus! {

/// Whether the task is over after this output.
pub open spec fn ends(out: TaskOutput) -> bool {
    out.next.spec_is_end()
}

/// What one event adds to the announcements.
pub open spec fn announcement(out: TaskOutput) -> Seq<BackendState> {
    match out.publish {
        Some(state) => seq![state],
        None => seq![],
    }
}

/// The states that a task announces, in order, when it begins in `state` and
/// meets `events`. Events that come after the task has ended count for
/// nothing.
pub open spec fn announced(max_idle_secs: u64, state: BackendState, events: Seq<TaskEvent>) -> Seq<
    BackendState,
>
    decreases events.len(),
{
    if events.len() == 0 {
        seq![]
    } else {
        let out = run_spec(max_idle_secs, state, events[0]);
        if ends(out) {
            announcement(out)
        } else {
            announcement(out) + announced(max_idle_secs, out.state, events.drop_first())
        }
    }
}

/// The state in which `events` leave a backend whose task began in `state`.
pub open spec fn state_after(max_idle_secs: u64, state: BackendState, events: Seq<TaskEvent>) -> BackendState
    decreases events.len(),
{
    if events.len() == 0 {
        state
    } else {
        let out = run_spec(max_idle_secs, state, events[0]);
        if ends(out) {
            out.state
        } else {
            state_after(max_idle_secs, out.state, events.drop_first())
        }
    }
}

/// Whether the task that began in `state` has ended by the end of `events`.
pub open spec fn ended(max_idle_secs: u64, state: BackendState, events: Seq<TaskEvent>) -> bool
    decreases events.len(),
{
    if events.len() == 0 {
        false
    } else {
        let out = run_spec(max_idle_secs, state, events[0]);
        ends(out) || ended(max_idle_secs, out.state, events.drop_first())
    }
}

/// Whether, in the run from `state` over `events`, a termination request
/// reaches a backend that is `Terminated` already.
pub open spec fn terminated_again(max_idle_secs: u64, state: BackendState, events: Seq<TaskEvent>) -> bool
    decreases events.len(),
{
    if events.len() == 0 {
        false
    } else {
        let out = run_spec(max_idle_secs, state, events[0]);
        (state == BackendState::Terminated && events[0] == TaskEvent::Signal(
            Some(Signal::Terminate),
        )) || (!ends(out) && terminated_again(max_idle_secs, out.state, events.drop_first()))
    }
}

/// Whether the transition into the state at position `i` of `states` is
/// valid, when the states are entered one after the other from `from`.
pub open spec fn step_is_valid(from: BackendState, states: Seq<BackendState>, i: int) -> bool {
    valid_transition(
        if i == 0 {
            from
        } else {
            states[i - 1]
        },
        states[i],
    )
}

/// Whether `states`, entered one after the other from `from`, follow the
/// transitions that [`valid_transition`] allows.
pub open spec fn is_path(from: BackendState, states: Seq<BackendState>) -> bool {
    forall|i: int| 0 <= i < states.len() ==> #[trigger] step_is_valid(from, states, i)
}

/// Whether the ranks rise strictly along `states`, beginning above that of
/// `from`.
pub open spec fn rises(from: BackendState, states: Seq<BackendState>) -> bool {
    &&& forall|i: int| 0 <= i < states.len() ==> from.rank() < (#[trigger] states[i]).rank()
    &&& forall|i: int, j: int|
        0 <= i < j < states.len() ==> (#[trigger] states[i]).rank() < (#[trigger] states[j]).rank()
}

/// One event either leaves the state alone and announces nothing, or
/// announces the state that the backend has entered by a valid transition.
pub proof fn lemma_event(max_idle_secs: u64, state: BackendState, event: TaskEvent)
    ensures
        ({
            let out = run_spec(max_idle_secs, state, event);
            match out.publish {
                Some(new_state) => out.state == new_state && valid_transition(state, new_state),
                None => out.state == state,
            }
        }),
{
}

/// The last of `states`, or `from` where there are none: the state of a
/// backend that began in `from` and entered `states` one after the other.
pub open spec fn last_of(from: BackendState, states: Seq<BackendState>) -> BackendState {
    if states.len() == 0 {
        from
    } else {
        states.last()
    }
}

/// A path goes on: a valid first transition, if there is one, and a path
/// from where it leads make a path.
proof fn lemma_path_joins(from: BackendState, head: Seq<BackendState>, rest: Seq<BackendState>)
    requires
        head.len() <= 1,
        head.len() == 1 ==> valid_transition(from, head[0]),
        is_path(last_of(from, head), rest),
    ensures
        is_path(from, head + rest),
        last_of(from, head + rest) == last_of(last_of(from, head), rest),
{
    let all = head + rest;
    let k = head.len() as int;
    assert forall|i: int| 0 <= i < all.len() implies #[trigger] step_is_valid(from, all, i) by {
        if i >= k {
            assert(step_is_valid(last_of(from, head), rest, i - k));
            assert(all[i] == rest[i - k]);
            if i - k > 0 {
                assert(all[i - 1] == rest[i - k - 1]);
            } else if k == 1 {
                assert(all[i - 1] == head[0]);
            }
        } else {
            assert(all[i] == head[0]);
        }
    }
    if rest.len() > 0 {
        assert(all.last() == rest.last());
    } else {
        assert(all =~= head);
    }
}

/// Ranks go on rising: a first state above `from`, if there is one, and
/// states that rise from there rise from `from`.
proof fn lemma_rises_joins(from: BackendState, head: Seq<BackendState>, rest: Seq<BackendState>)
    requires
        head.len() <= 1,
        head.len() == 1 ==> from.rank() < head[0].rank(),
        rises(last_of(from, head), rest),
    ensures
        rises(from, head + rest),
{
    let all = head + rest;
    let k = head.len() as int;
    assert forall|i: int| 0 <= i < all.len() implies from.rank() < (#[trigger] all[i]).rank() by {
        if i >= k {
            assert(all[i] == rest[i - k]);
        } else {
            assert(all[i] == head[0]);
        }
    }
    assert forall|i: int, j: int| 0 <= i < j < all.len() implies (#[trigger] all[i]).rank() < (
    #[trigger] all[j]).rank() by {
        assert(all[j] == rest[j - k]);
        if i >= k {
            assert(all[i] == rest[i - k]);
        } else {
            assert(all[i] == head[0]);
        }
    }
}

/// States whose ranks rise from that of `from` differ from each other and
/// from `from`.
proof fn lemma_rising_states_differ(from: BackendState, states: Seq<BackendState>)
    requires
        rises(from, states),
    ensures
        states.no_duplicates(),
        !states.contains(from),
{
    assert forall|i: int, j: int|
        0 <= i < states.len() && 0 <= j < states.len() && i != j implies states[i]
        != states[j] by {
        if i < j {
            assert(states[i].rank() < states[j].rank());
        } else {
            assert(states[j].rank() < states[i].rank());
        }
    }
    if states.contains(from) {
        let i = choose|i: int| 0 <= i < states.len() && states[i] == from;
        assert(from.rank() < states[i].rank());
    }
}

/// One event that is not a termination request to a backend that is
/// `Terminated` already announces, if anything, a state of higher rank.
proof fn lemma_event_rises(max_idle_secs: u64, state: BackendState, event: TaskEvent)
    requires
        !(state == BackendState::Terminated && event == TaskEvent::Signal(Some(Signal::Terminate))),
    ensures
        run_spec(max_idle_secs, state, event).publish matches Some(new_state) ==> state.rank()
            < new_state.rank(),
{
}

/// The states that a task announces form a path in the graph of
/// transitions, beginning at the state in which the task began; and the
/// last of them, if there is any, is the state of the backend.
pub proof fn lemma_announced_is_path(max_idle_secs: u64, state: BackendState, events: Seq<TaskEvent>)
    ensures
        is_path(state, announced(max_idle_secs, state, events)),
        state_after(max_idle_secs, state, events) == last_of(
            state,
            announced(max_idle_secs, state, events),
        ),
    decreases events.len(),
{
    if events.len() > 0 {
        let out = run_spec(max_idle_secs, state, events[0]);
        let head = announcement(out);
        lemma_event(max_idle_secs, state, events[0]);
        assert(out.state == last_of(state, head));
        if ends(out) {
            lemma_path_joins(state, head, seq![]);
            assert(head + Seq::<BackendState>::empty() =~= head);
        } else {
            lemma_announced_is_path(max_idle_secs, out.state, events.drop_first());
            lemma_path_joins(
                state,
                head,
                announced(max_idle_secs, out.state, events.drop_first()),
            );
        }
    }
}

/// A backend moves forward only: unless a termination request reaches a
/// backend that is `Terminated` already, each state that a task announces
/// ranks above the state in which the task began and above every state
/// announced before. So no state is announced twice, and none is entered
/// again.
pub proof fn lemma_announced_rises(max_idle_secs: u64, state: BackendState, events: Seq<TaskEvent>)
    requires
        !terminated_again(max_idle_secs, state, events),
    ensures
        rises(state, announced(max_idle_secs, state, events)),
        announced(max_idle_secs, state, events).no_duplicates(),
        !announced(max_idle_secs, state, events).contains(state),
    decreases events.len(),
{
    if events.len() > 0 {
        let out = run_spec(max_idle_secs, state, events[0]);
        let head = announcement(out);
        lemma_event(max_idle_secs, state, events[0]);
        lemma_event_rises(max_idle_secs, state, events[0]);
        assert(out.state == last_of(state, head));
        if ends(out) {
            lemma_rises_joins(state, head, seq![]);
            assert(head + Seq::<BackendState>::empty() =~= head);
        } else {
            lemma_announced_rises(max_idle_secs, out.state, events.drop_first());
            lemma_rises_joins(
                state,
                head,
                announced(max_idle_secs, out.state, events.drop_first()),
            );
        }
    }
    lemma_rising_states_differ(state, announced(max_idle_secs, state, events));
}

/// A termination request that the task takes makes the backend
/// `Terminated` at once, which is a terminal state, and asks for the
/// container to be stopped. Whatever that one call reports, the task is
/// over: the container is stopped at most once, unless another signal comes
/// first.
pub proof fn lemma_terminate_stops_once(max_idle_secs: u64, state: BackendState, reply: StepReply)
    requires
        state != BackendState::Swept,
    ensures
        ({
            let taken = run_spec(
                max_idle_secs,
                state,
                TaskEvent::Signal(Some(Signal::Terminate)),
            );
            let stopped = run_spec(max_idle_secs, taken.state, TaskEvent::Reply(reply));
            &&& taken.state == BackendState::Terminated
            &&& taken.state.spec_terminal()
            &&& taken.publish == Some(BackendState::Terminated)
            &&& taken.next == TaskNext::Call(StepCall::Stop)
            &&& stopped.next == TaskNext::Exit
            &&& stopped.publish is None
        }),
{
}

/// When the senders of signals are gone while a task may take signals, the
/// task is over at once: the state stays as it is, nothing is announced, no
/// monitor is installed and the container is not asked to stop. What the
/// local store holds is then the state of the backend, from which it can be
/// resumed.
pub proof fn lemma_lost_senders_abort(max_idle_secs: u64, state: BackendState)
    requires
        state != BackendState::Swept,
    ensures
        ({
            let out = run_spec(max_idle_secs, state, TaskEvent::Signal(None));
            &&& out.next == TaskNext::Abort
            &&& ends(out)
            &&& out.state == state
            &&& out.publish is None
            &&& !out.install_monitor
        }),
{
}

/// A task goes on from where it stands, whatever came before: the run over
/// `before` and then `after` announces what the run over `before` announces
/// and then what a task announces that begins, in the state in which
/// `before` left the backend, with `after`. A task that is begun again
/// in the state of the backend therefore makes the transitions that the
/// first task would have made.
pub proof fn lemma_resume(
    max_idle_secs: u64,
    state: BackendState,
    before: Seq<TaskEvent>,
    after: Seq<TaskEvent>,
)
    requires
        !ended(max_idle_secs, state, before),
    ensures
        announced(max_idle_secs, state, before + after) == announced(max_idle_secs, state, before)
            + announced(max_idle_secs, state_after(max_idle_secs, state, before), after),
        state_after(max_idle_secs, state, before + after) == state_after(
            max_idle_secs,
            state_after(max_idle_secs, state, before),
            after,
        ),
    decreases before.len(),
{
    if before.len() == 0 {
        assert(before + after =~= after);
    } else {
        let out = run_spec(max_idle_secs, state, before[0]);
        assert((before + after)[0] == before[0]);
        assert((before + after).drop_first() =~= before.drop_first() + after);
        lemma_resume(max_idle_secs, out.state, before.drop_first(), after);
        assert(announced(max_idle_secs, state, before + after) =~= announced(
            max_idle_secs,
            state,
            before,
        ) + announced(max_idle_secs, state_after(max_idle_secs, state, before), after));
    }
}

} // verus!
