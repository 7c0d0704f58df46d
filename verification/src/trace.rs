//! Whole runs of the loop: what it prints, and where it stands, after a
//! sequence of events.

use vstd::prelude::*;
use crate::options::{Options, OptionsView};
use crate::retry::{
    lemma_quiet_step, lemma_silent_step, lemma_step_unstyled, step, step_spec, succeeded, Event,
    EventView, State, Step, StepView,
};
use crate::terminal::{
    is_child_output, lemma_unstyled_add, lemma_views_add, unstyled, views, Capabilities, Output,
    OutputView,
};

verus! {

/// The values of a sequence of events, in the same order.
pub open spec fn event_views(events: Seq<Event>) -> Seq<EventView> {
    events.map_values(|event: Event| event@)
}

/// Everything printed while `events` came in one after the other, and the
/// state reached after the last of them. The loop starts out running.
pub open spec fn run_spec(
    options: OptionsView,
    caps: Capabilities,
    events: Seq<EventView>,
) -> StepView
    decreases events.len(),
{
    if events.len() == 0 {
        StepView { outputs: seq![], state: State::Running }
    } else {
        let before = run_spec(options, caps, events.drop_last());
        let last = step_spec(options, caps, before.state, events.last());
        StepView { outputs: before.outputs + last.outputs, state: last.state }
    }
}

/// Takes the loop from its start through `events`, in order.
pub fn run(options: &Options, caps: &Capabilities, events: Vec<Event>) -> (end: Step)
    ensures
        end@ == run_spec(options@, *caps, event_views(events@)),
{
    let mut outputs: Vec<Output> = Vec::new();
    let mut state = State::Running;
    assert(views(outputs@) =~= Seq::<OutputView>::empty());
    for event in iter: events
        invariant
            iter.seq() == events@,
            (StepView { outputs: views(outputs@), state }) == run_spec(
                options@,
                *caps,
                event_views(events@).take(iter.index() as int),
            ),
    {
        let ghost seen = event_views(events@).take(iter.index() as int);
        let ghost more = event_views(events@).take(iter.index() + 1);
        assert(more.drop_last() =~= seen);
        let mut next = step(options, caps, state, event);
        proof {
            lemma_views_add(outputs@, next.outputs@);
        }
        outputs.append(&mut next.outputs);
        state = next.state;
    }
    assert(event_views(events@).take(events@.len() as int) =~= event_views(events@));
    Step { outputs, state }
}

/// The child ran and left with exit status zero.
pub open spec fn exited_zero(event: EventView) -> bool {
    event matches EventView::Finished { code, .. } && succeeded(code)
}

/// The child ran and did not leave with exit status zero: it left with
/// another status, or a signal ended it.
pub open spec fn exited_nonzero(event: EventView) -> bool {
    event matches EventView::Finished { code, .. } && !succeeded(code)
}

/// The loop goes on as long as every child ran and none met the stop
/// condition.
pub proof fn lemma_goes_on(options: OptionsView, caps: Capabilities, events: Seq<EventView>)
    requires
        forall|i: int|
            0 <= i < events.len() ==> if options.stop_when_successful {
                exited_nonzero(#[trigger] events[i])
            } else {
                exited_zero(events[i])
            },
    ensures
        run_spec(options, caps, events).state == State::Running,
    decreases events.len(),
{
    if events.len() > 0 {
        let before = events.drop_last();
        assert forall|i: int| 0 <= i < before.len() implies if options.stop_when_successful {
            exited_nonzero(#[trigger] before[i])
        } else {
            exited_zero(before[i])
        } by {
            assert(before[i] == events[i]);
        }
        lemma_goes_on(options, caps, before);
    }
}

/// A terminated loop is over: whatever is reported after the first `n`
/// events changes neither the state nor what was printed.
pub proof fn lemma_terminated_is_final(
    options: OptionsView,
    caps: Capabilities,
    events: Seq<EventView>,
    n: int,
)
    requires
        0 <= n <= events.len(),
        run_spec(options, caps, events.take(n)).state is Terminated,
    ensures
        run_spec(options, caps, events) == run_spec(options, caps, events.take(n)),
    decreases events.len() - n,
{
    if n == events.len() {
        assert(events.take(n) =~= events);
    } else {
        let before = events.drop_last();
        assert(before.take(n) =~= events.take(n));
        lemma_terminated_is_final(options, caps, before, n);
    }
}

/// Where the loop stands after the first child that met the stop condition,
/// given that every child before it ran and did not.
proof fn lemma_stops_at_first(
    options: OptionsView,
    caps: Capabilities,
    events: Seq<EventView>,
    first: int,
)
    requires
        0 <= first < events.len(),
        forall|i: int|
            0 <= i < first ==> if options.stop_when_successful {
                exited_nonzero(#[trigger] events[i])
            } else {
                exited_zero(events[i])
            },
        if options.stop_when_successful {
            exited_zero(events[first])
        } else {
            exited_nonzero(events[first])
        },
    ensures
        forall|n: int|
            0 <= n <= first ==> (#[trigger] run_spec(options, caps, events.take(n))).state
                == State::Running,
        forall|n: int|
            first < n <= events.len() ==> (#[trigger] run_spec(
                options,
                caps,
                events.take(n),
            )).state == (State::Terminated { code: 0 }),
{
    assert forall|n: int| 0 <= n <= first implies (#[trigger] run_spec(
        options,
        caps,
        events.take(n),
    )).state == State::Running by {
        lemma_goes_on(options, caps, events.take(n));
    }
    let through = events.take(first + 1);
    assert(through.drop_last() =~= events.take(first));
    assert(run_spec(options, caps, events.take(first)).state == State::Running);
    assert(run_spec(options, caps, through).state == step_spec(
        options,
        caps,
        State::Running,
        events[first],
    ).state);
    assert forall|n: int| first < n <= events.len() implies (#[trigger] run_spec(
        options,
        caps,
        events.take(n),
    )).state == (State::Terminated { code: 0 }) by {
        assert(events.take(n).take(first + 1) =~= through);
        lemma_terminated_is_final(options, caps, events.take(n), first + 1);
    }
}

/// With the stop condition as it is by default, the loop goes on after every
/// child that left with status zero and terminates, with exit code 0, at the
/// first child that did not: after `first` events it still runs, after one
/// more it is over for good.
pub proof fn lemma_default_stops_at_first_failure(
    options: OptionsView,
    caps: Capabilities,
    events: Seq<EventView>,
    first: int,
)
    requires
        !options.stop_when_successful,
        0 <= first < events.len(),
        forall|i: int| 0 <= i < first ==> exited_zero(#[trigger] events[i]),
        exited_nonzero(events[first]),
    ensures
        forall|n: int|
            0 <= n <= first ==> (#[trigger] run_spec(options, caps, events.take(n))).state
                == State::Running,
        forall|n: int|
            first < n <= events.len() ==> (#[trigger] run_spec(
                options,
                caps,
                events.take(n),
            )).state == (State::Terminated { code: 0 }),
{
    lemma_stops_at_first(options, caps, events, first);
}

/// With the stop condition negated, the loop goes on after every child that
/// did not leave with status zero and terminates, with exit code 0, at the
/// first child that did: after `first` events it still runs, after one more
/// it is over for good.
pub proof fn lemma_negated_stops_at_first_success(
    options: OptionsView,
    caps: Capabilities,
    events: Seq<EventView>,
    first: int,
)
    requires
        options.stop_when_successful,
        0 <= first < events.len(),
        forall|i: int| 0 <= i < first ==> exited_nonzero(#[trigger] events[i]),
        exited_zero(events[first]),
    ensures
        forall|n: int|
            0 <= n <= first ==> (#[trigger] run_spec(options, caps, events.take(n))).state
                == State::Running,
        forall|n: int|
            first < n <= events.len() ==> (#[trigger] run_spec(
                options,
                caps,
                events.take(n),
            )).state == (State::Terminated { code: 0 }),
{
    lemma_stops_at_first(options, caps, events, first);
}

/// A run that is over leaves with exit code 0 or with exit code 1, and with
/// 1 only where a command could not be run.
pub proof fn lemma_exit_code_is_zero_or_one(
    options: OptionsView,
    caps: Capabilities,
    events: Seq<EventView>,
)
    ensures
        match run_spec(options, caps, events).state {
            State::Running => true,
            State::Terminated { code } => {
                &&& code == 0 || code == 1
                &&& code == 1 ==> exists|i: int|
                    0 <= i < events.len() && (#[trigger] events[i]) is SpawnFailed
            },
        },
    decreases events.len(),
{
    if events.len() > 0 {
        let earlier = events.drop_last();
        lemma_exit_code_is_zero_or_one(options, caps, earlier);
        if run_spec(options, caps, events).state == (State::Terminated { code: 1 }) {
            if run_spec(options, caps, earlier).state == State::Running {
                assert(events[events.len() - 1] is SpawnFailed);
            } else {
                let i = choose|i: int|
                    0 <= i < earlier.len() && (#[trigger] earlier[i]) is SpawnFailed;
                assert(events[i] is SpawnFailed);
            }
        }
    }
}

/// What a terminal can do changes neither where a run ends nor the text it
/// prints, only the styling: without the styling steps, the run is the one
/// that a terminal without capabilities sees.
pub proof fn lemma_run_unstyled(
    options: OptionsView,
    caps: Capabilities,
    events: Seq<EventView>,
)
    ensures
        run_spec(options, caps, events).state == run_spec(
            options,
            Capabilities::plain(),
            events,
        ).state,
        unstyled(run_spec(options, caps, events).outputs) == run_spec(
            options,
            Capabilities::plain(),
            events,
        ).outputs,
    decreases events.len(),
{
    if events.len() > 0 {
        let before = run_spec(options, caps, events.drop_last());
        let last = step_spec(options, caps, before.state, events.last());
        lemma_run_unstyled(options, caps, events.drop_last());
        lemma_step_unstyled(options, caps, before.state, events.last());
        lemma_unstyled_add(before.outputs, last.outputs);
    }
}

/// With `silent` set, no byte that a child wrote reaches the output of the
/// run, however the run goes.
pub proof fn lemma_silent_passes_nothing_on(
    options: OptionsView,
    caps: Capabilities,
    events: Seq<EventView>,
)
    requires
        options.silent,
    ensures
        forall|i: int|
            0 <= i < run_spec(options, caps, events).outputs.len() ==> !is_child_output(
                #[trigger] run_spec(options, caps, events).outputs[i],
            ),
    decreases events.len(),
{
    if events.len() > 0 {
        let before = run_spec(options, caps, events.drop_last());
        lemma_silent_passes_nothing_on(options, caps, events.drop_last());
        lemma_silent_step(options, caps, before.state, events.last());
    }
}

/// With `quiet` set, neither the "continue" nor the "done" message is ever
/// part of what a run prints; and as long as every command could be run, the
/// run prints nothing but what the children wrote.
pub proof fn lemma_quiet_prints_no_status(
    options: OptionsView,
    caps: Capabilities,
    events: Seq<EventView>,
)
    requires
        options.quiet,
    ensures
        forall|i: int|
            0 <= i < run_spec(options, caps, events).outputs.len() ==> {
                let output = #[trigger] run_spec(options, caps, events).outputs[i];
                &&& output != OutputView::Line("ok"@)
                &&& output != OutputView::Line("no, pls"@)
            },
        (forall|k: int| 0 <= k < events.len() ==> (#[trigger] events[k]) is Finished) ==> forall|
            i: int,
        |
            0 <= i < run_spec(options, caps, events).outputs.len() ==> is_child_output(
                #[trigger] run_spec(options, caps, events).outputs[i],
            ),
    decreases events.len(),
{
    if events.len() > 0 {
        let earlier = events.drop_last();
        lemma_quiet_prints_no_status(options, caps, earlier);
        let before = run_spec(options, caps, earlier);
        lemma_quiet_step(options, caps, before.state, events.last());
        if forall|k: int| 0 <= k < events.len() ==> (#[trigger] events[k]) is Finished {
            assert forall|k: int| 0 <= k < earlier.len() implies (#[trigger] earlier[k])
                is Finished by {
                assert(earlier[k] == events[k]);
            }
        }
    }
}

/// Two terminals that differ in what they support see the same run but for
/// its styling: it ends in the same state, with the same exit code, and
/// prints the same text and the same child output in the same order.
pub proof fn lemma_capabilities_only_style(
    options: OptionsView,
    one: Capabilities,
    other: Capabilities,
    events: Seq<EventView>,
)
    ensures
        run_spec(options, one, events).state == run_spec(options, other, events).state,
        unstyled(run_spec(options, one, events).outputs) == unstyled(
            run_spec(options, other, events).outputs,
        ),
{
    lemma_run_unstyled(options, one, events);
    lemma_run_unstyled(options, other, events);
}

} // verus!
