//! The retry loop as a state machine.
//!
//! The loop is either running or terminated. While it runs, the caller spawns
//! the command, waits for it and reports the outcome as an [`Event`];
//! [`step`] answers with the output to perform and the state to go on from.

use vstd::prelude::*;
use crate::message::{
    lemma_no_pls_unstyled, lemma_ok_unstyled, no_pls, no_pls_outputs, ok, ok_outputs,
};
use crate::options::{Options, OptionsView};
use crate::terminal::{
    is_child_output, lemma_style_is_styling, lemma_unstyled_add, lemma_unstyled_empty,
    lemma_unstyled_one, lemma_views_add, lemma_views_push, push_style_off, push_style_on,
    style_off, style_on, unstyled, views, Attr, Capabilities, Color, Output, OutputView,
};

verus! {

/// Where the loop stands.
#[derive(Clone, Copy, Debug, PartialEq, Eq)]
pub enum State {
    /// The command is to be run (again).
    Running,
    /// The loop is over and the process leaves with `code`.
    Terminated { code: i32 },
}

/// What came of one attempt to run the command.
#[derive(Debug, PartialEq, Eq)]
pub enum Event {
    /// The child ran to its end.
    Finished {
        /// Its exit code, or `None` where a signal ended it.
        code: Option<i32>,
        /// What it wrote to its standard output.
        stdout: Vec<u8>,
        /// What it wrote to its standard error.
        stderr: Vec<u8>,
    },
    /// The command could not be run at all.
    SpawnFailed,
}

/// The mathematical value of an [`Event`].
pub enum EventView {
    Finished { code: Option<i32>, stdout: Seq<u8>, stderr: Seq<u8> },
    SpawnFailed,
}

impl View for Event {
    type V = EventView;

    open spec fn view(&self) -> EventView {
        match self {
            Event::Finished { code, stdout, stderr } => EventView::Finished {
                code: *code,
                stdout: stdout@,
                stderr: stderr@,
            },
            Event::SpawnFailed => EventView::SpawnFailed,
        }
    }
}

/// The answer to one event: what to print, and where the loop stands after.
#[derive(Debug, PartialEq, Eq)]
pub struct Step {
    /// The output to perform, in this order.
    pub outputs: Vec<Output>,
    /// The state after the event.
    pub state: State,
}

/// The mathematical value of a [`Step`].
pub struct StepView {
    pub outputs: Seq<OutputView>,
    pub state: State,
}

impl View for Step {
    type V = StepView;

    open spec fn view(&self) -> StepView {
        StepView { outputs: views(self.outputs@), state: self.state }
    }
}

/// The exit code with which the process leaves when the command cannot be run.
pub const SPAWN_FAILURE_CODE: i32 = 1;

/// The message that reports that the command cannot be run.
pub const SPAWN_FAILURE_MESSAGE: &'static str = "Command completely failed to run.";

/// A child succeeded when it left with exit code zero. One that a signal
/// ended did not succeed.
pub open spec fn succeeded(code: Option<i32>) -> bool {
    code == Some(0i32)
}

/// The child's output as the parent passes it on: standard output first, then
/// standard error, byte for byte. Nothing when `silent`.
pub open spec fn echo(silent: bool, stdout: Seq<u8>, stderr: Seq<u8>) -> Seq<OutputView> {
    if silent {
        seq![]
    } else {
        seq![OutputView::Stdout(stdout), OutputView::Stderr(stderr)]
    }
}

/// The final report of the process: `message` on a line of its own unless it
/// is empty, in bold red as far as the terminal supports it when `code` reports
/// a failure, and the terminated state that carries `code`.
pub open spec fn exit_spec(code: i32, message: Seq<char>, caps: Capabilities) -> StepView {
    StepView {
        outputs: (if code != 0 {
            style_on(caps, false, Color::Red)
        } else {
            seq![]
        }) + (if message.len() > 0 {
            seq![OutputView::Line(message)]
        } else {
            seq![]
        }) + style_off(caps),
        state: State::Terminated { code },
    }
}

/// The state after `event`. A terminated loop stays as it is. A running loop
/// terminates with code 1 when the command could not be run, terminates with
/// code 0 when the child's success is the one that the options wait for, and
/// goes on running otherwise.
pub open spec fn next_state(stop_when_successful: bool, state: State, event: EventView) -> State {
    match state {
        State::Terminated { .. } => state,
        State::Running => match event {
            EventView::SpawnFailed => State::Terminated { code: SPAWN_FAILURE_CODE },
            EventView::Finished { code, .. } => if succeeded(code) == stop_when_successful {
                State::Terminated { code: 0 }
            } else {
                State::Running
            },
        },
    }
}

/// The answer of the loop to `event` in `state`.
///
/// A terminated loop prints nothing more. A failure to run the command is
/// reported with its fixed message. After a child that ran, its output is
/// passed on first (unless `silent`); then comes the "done" message where the
/// loop stops, the "continue" message where it goes on.
pub open spec fn step_spec(
    options: OptionsView,
    caps: Capabilities,
    state: State,
    event: EventView,
) -> StepView {
    match state {
        State::Terminated { .. } => StepView { outputs: seq![], state },
        State::Running => match event {
            EventView::SpawnFailed => exit_spec(SPAWN_FAILURE_CODE, SPAWN_FAILURE_MESSAGE@, caps),
            EventView::Finished { code, stdout, stderr } => StepView {
                outputs: echo(options.silent, stdout, stderr) + (if succeeded(code)
                    == options.stop_when_successful {
                    ok_outputs(options.quiet, caps)
                } else {
                    no_pls_outputs(options.quiet, caps)
                }),
                state: next_state(options.stop_when_successful, state, event),
            },
        },
    }
}

/// Ends the loop: the steps that print `message`, and the terminated state
/// that carries `code`.
pub fn exit(code: i32, message: &str, caps: &Capabilities) -> (last: Step)
    ensures
        last@ == exit_spec(code, message@, *caps),
{
    let mut outputs: Vec<Output> = Vec::new();
    if code != 0 {
        push_style_on(&mut outputs, caps, false, Color::Red);
    }
    if !message.is_empty() {
        let text = String::from_str(message);
        proof {
            lemma_views_push(outputs@, Output::Line(text));
        }
        outputs.push(Output::Line(text));
    }
    push_style_off(&mut outputs, caps);
    assert(views(outputs@) =~= exit_spec(code, message@, *caps).outputs);
    Step { outputs, state: State::Terminated { code } }
}

/// Takes the loop one event further.
pub fn step(options: &Options, caps: &Capabilities, state: State, event: Event) -> (next: Step)
    ensures
        next@ == step_spec(options@, *caps, state, event@),
        next.state == next_state(options.stop_when_successful, state, event@),
        options.silent ==> forall|i: int|
            0 <= i < next@.outputs.len() ==> !is_child_output(#[trigger] next@.outputs[i]),
        options.quiet && event is Finished ==> forall|i: int|
            0 <= i < next@.outputs.len() ==> is_child_output(#[trigger] next@.outputs[i]),
{
    proof {
        if options.silent {
            lemma_silent_step(options@, *caps, state, event@);
        }
        if options.quiet {
            lemma_quiet_step(options@, *caps, state, event@);
        }
    }
    match state {
        State::Terminated { .. } => {
            let outputs: Vec<Output> = Vec::new();
            assert(views(outputs@) =~= Seq::<OutputView>::empty());
            Step { outputs, state }
        },
        State::Running => match event {
            Event::SpawnFailed => exit(SPAWN_FAILURE_CODE, SPAWN_FAILURE_MESSAGE, caps),
            Event::Finished { code, stdout, stderr } => {
                let mut outputs: Vec<Output> = Vec::new();
                if !options.silent {
                    proof {
                        lemma_views_push(outputs@, Output::Stdout(stdout));
                    }
                    outputs.push(Output::Stdout(stdout));
                    proof {
                        lemma_views_push(outputs@, Output::Stderr(stderr));
                    }
                    outputs.push(Output::Stderr(stderr));
                }
                assert(views(outputs@) =~= echo(options.silent, stdout@, stderr@));
                let success = match code {
                    Some(value) => value == 0,
                    None => false,
                };
                let stop = success == options.stop_when_successful;
                let mut message = if stop {
                    ok(options, caps)
                } else {
                    no_pls(options, caps)
                };
                proof {
                    lemma_views_add(outputs@, message@);
                }
                outputs.append(&mut message);
                let state = if stop {
                    State::Terminated { code: 0 }
                } else {
                    State::Running
                };
                Step { outputs, state }
            },
        },
    }
}

/// With `silent` set, a step passes nothing on of what the child wrote.
pub proof fn lemma_silent_step(
    options: OptionsView,
    caps: Capabilities,
    state: State,
    event: EventView,
)
    requires
        options.silent,
    ensures
        forall|i: int|
            0 <= i < step_spec(options, caps, state, event).outputs.len() ==> !is_child_output(
                #[trigger] step_spec(options, caps, state, event).outputs[i],
            ),
{
}

/// With `quiet` set, a step prints neither the "continue" nor the "done"
/// message, and after a child that ran it prints nothing but what the child
/// wrote.
pub proof fn lemma_quiet_step(
    options: OptionsView,
    caps: Capabilities,
    state: State,
    event: EventView,
)
    requires
        options.quiet,
    ensures
        forall|i: int|
            0 <= i < step_spec(options, caps, state, event).outputs.len() ==> {
                let output = #[trigger] step_spec(options, caps, state, event).outputs[i];
                &&& output != OutputView::Line("ok"@)
                &&& output != OutputView::Line("no, pls"@)
                &&& event is Finished ==> is_child_output(output)
            },
{
    reveal_strlit("ok");
    reveal_strlit("no, pls");
    reveal_strlit("Command completely failed to run.");
}

/// What a terminal can do changes neither the exit code nor the text of the
/// final report, only its styling.
pub proof fn lemma_exit_unstyled(code: i32, message: Seq<char>, caps: Capabilities)
    ensures
        exit_spec(code, message, caps).state == exit_spec(
            code,
            message,
            Capabilities::plain(),
        ).state,
        unstyled(exit_spec(code, message, caps).outputs) == exit_spec(
            code,
            message,
            Capabilities::plain(),
        ).outputs,
{
    let none = Seq::<OutputView>::empty();
    let on = if code != 0 {
        style_on(caps, false, Color::Red)
    } else {
        none
    };
    let line = if message.len() > 0 {
        seq![OutputView::Line(message)]
    } else {
        none
    };
    lemma_unstyled_empty();
    lemma_style_is_styling(caps, false, Color::Red);
    lemma_unstyled_one(OutputView::Line(message));
    lemma_unstyled_add(on, line);
    lemma_unstyled_add(on + line, style_off(caps));
    assert(none + line + none =~= line);
}

/// The child's output carries no styling.
pub proof fn lemma_echo_unstyled(silent: bool, stdout: Seq<u8>, stderr: Seq<u8>)
    ensures
        unstyled(echo(silent, stdout, stderr)) == echo(silent, stdout, stderr),
{
    lemma_unstyled_empty();
    lemma_unstyled_one(OutputView::Stdout(stdout));
    lemma_unstyled_one(OutputView::Stderr(stderr));
    lemma_unstyled_add(seq![OutputView::Stdout(stdout)], seq![OutputView::Stderr(stderr)]);
    assert(seq![OutputView::Stdout(stdout)] + seq![OutputView::Stderr(stderr)] =~= seq![
        OutputView::Stdout(stdout),
        OutputView::Stderr(stderr),
    ]);
}

/// What a terminal can do changes neither the next state nor the text that a
/// step prints, only its styling: without the styling steps, the answer is the
/// one that a terminal without capabilities gets.
pub proof fn lemma_step_unstyled(
    options: OptionsView,
    caps: Capabilities,
    state: State,
    event: EventView,
)
    ensures
        step_spec(options, caps, state, event).state == step_spec(
            options,
            Capabilities::plain(),
            state,
            event,
        ).state,
        unstyled(step_spec(options, caps, state, event).outputs) == step_spec(
            options,
            Capabilities::plain(),
            state,
            event,
        ).outputs,
{
    match state {
        State::Terminated { .. } => {},
        State::Running => match event {
            EventView::SpawnFailed => {
                lemma_exit_unstyled(SPAWN_FAILURE_CODE, SPAWN_FAILURE_MESSAGE@, caps);
            },
            EventView::Finished { stdout, stderr, .. } => {
                lemma_echo_unstyled(options.silent, stdout, stderr);
                lemma_ok_unstyled(options.quiet, caps);
                lemma_no_pls_unstyled(options.quiet, caps);
                lemma_unstyled_add(
                    echo(options.silent, stdout, stderr),
                    ok_outputs(options.quiet, caps),
                );
                lemma_unstyled_add(
                    echo(options.silent, stdout, stderr),
                    no_pls_outputs(options.quiet, caps),
                );
            },
        },
    }
}

/// In the final report each step is decided by its own capability, and the
/// style by the code alone: bold and red are switched on exactly where `code`
/// reports a failure and the terminal supports bold, or colour; the reset
/// comes exactly where the terminal supports a reset. The report never blinks.
pub proof fn lemma_exit_steps(code: i32, message: Seq<char>, caps: Capabilities)
    ensures
        exit_spec(code, message, caps).outputs.contains(OutputView::Attr(Attr::Bold)) <==> code
            != 0 && caps.bold,
        exit_spec(code, message, caps).outputs.contains(OutputView::Foreground(Color::Red))
            <==> code != 0 && caps.color,
        exit_spec(code, message, caps).outputs.contains(OutputView::Reset) <==> caps.reset,
        exit_spec(code, message, caps).outputs.contains(OutputView::Line(message))
            <==> message.len() > 0,
        !exit_spec(code, message, caps).outputs.contains(OutputView::Attr(Attr::Blink)),
{
    let steps = exit_spec(code, message, caps).outputs;
    let bold: int = if code != 0 && caps.bold { 1 } else { 0 };
    let colored: int = if code != 0 && caps.color { 1 } else { 0 };
    let line: int = if message.len() > 0 { 1 } else { 0 };
    if code != 0 && caps.bold {
        assert(steps[0] == OutputView::Attr(Attr::Bold));
    }
    if code != 0 && caps.color {
        assert(steps[bold] == OutputView::Foreground(Color::Red));
    }
    if message.len() > 0 {
        assert(steps[bold + colored] == OutputView::Line(message));
    }
    if caps.reset {
        assert(steps[bold + colored + line] == OutputView::Reset);
    }
}

} // verus!
