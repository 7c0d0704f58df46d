use pls::options::Options;
use pls::retry::{step, Event, State, Step, SPAWN_FAILURE_CODE, SPAWN_FAILURE_MESSAGE};
use pls::terminal::{Attr, Capabilities, Color, Output};
use pls::trace::run;

const FULL: Capabilities = Capabilities {
    reset: true,
    color: true,
    bold: true,
    blink: true,
};

const PLAIN: Capabilities = Capabilities {
    reset: false,
    color: false,
    bold: false,
    blink: false,
};

fn options(quiet: bool, silent: bool, stop_when_successful: bool) -> Options {
    Options {
        command: "cmd".to_string(),
        args: vec!["arg".to_string()],
        quiet,
        silent,
        stop_when_successful,
    }
}

fn finished(code: i32) -> Event {
    Event::Finished {
        code: Some(code),
        stdout: format!("out {}\n", code).into_bytes(),
        stderr: format!("err {}\n", code).into_bytes(),
    }
}

fn echoed(code: i32) -> Vec<Output> {
    vec![
        Output::Stdout(format!("out {}\n", code).into_bytes()),
        Output::Stderr(format!("err {}\n", code).into_bytes()),
    ]
}

fn line(text: &str) -> Output {
    Output::Line(text.to_string())
}

fn done_plain() -> Vec<Output> {
    vec![Output::BlankLine, line("ok")]
}

fn again_plain() -> Vec<Output> {
    vec![Output::BlankLine, line("no, pls"), Output::BlankLine]
}

fn count(outputs: &[Output], wanted: &Output) -> usize {
    outputs.iter().filter(|output| *output == wanted).count()
}

#[test]
fn the_failure_code_is_one() {
    assert_eq!(SPAWN_FAILURE_CODE, 1);
}

#[test]
fn the_failure_message_is_fixed() {
    assert_eq!(SPAWN_FAILURE_MESSAGE, "Command completely failed to run.");
}

#[test]
fn by_default_a_success_goes_on() {
    let next = step(&options(false, false, false), &PLAIN, State::Running, finished(0));
    assert_eq!(next.state, State::Running);
    let mut expected = echoed(0);
    expected.extend(again_plain());
    assert_eq!(next.outputs, expected);
}

#[test]
fn by_default_a_failure_stops() {
    let next = step(&options(false, false, false), &PLAIN, State::Running, finished(1));
    assert_eq!(next.state, State::Terminated { code: 0 });
    let mut expected = echoed(1);
    expected.extend(done_plain());
    assert_eq!(next.outputs, expected);
}

#[test]
fn negated_a_failure_goes_on() {
    let next = step(&options(false, false, true), &PLAIN, State::Running, finished(1));
    assert_eq!(next.state, State::Running);
    let mut expected = echoed(1);
    expected.extend(again_plain());
    assert_eq!(next.outputs, expected);
}

#[test]
fn negated_a_success_stops() {
    let next = step(&options(false, false, true), &PLAIN, State::Running, finished(0));
    assert_eq!(next.state, State::Terminated { code: 0 });
    let mut expected = echoed(0);
    expected.extend(done_plain());
    assert_eq!(next.outputs, expected);
}

#[test]
fn every_nonzero_code_is_a_failure() {
    for code in [i32::MIN, -1, 1, 2, 126, 127, 128, 255, 256, i32::MAX] {
        let next = step(&options(true, true, false), &PLAIN, State::Running, finished(code));
        assert_eq!(next.state, State::Terminated { code: 0 }, "{}", code);
        let next = step(&options(true, true, true), &PLAIN, State::Running, finished(code));
        assert_eq!(next.state, State::Running, "{}", code);
    }
}

#[test]
fn a_child_ended_by_a_signal_did_not_succeed() {
    let killed = || Event::Finished {
        code: None,
        stdout: Vec::new(),
        stderr: Vec::new(),
    };
    let next = step(&options(true, true, false), &PLAIN, State::Running, killed());
    assert_eq!(next.state, State::Terminated { code: 0 });
    let next = step(&options(true, true, true), &PLAIN, State::Running, killed());
    assert_eq!(next.state, State::Running);
}

#[test]
fn the_child_output_comes_before_the_message() {
    let next = step(&options(false, false, false), &FULL, State::Running, finished(7));
    assert_eq!(
        next.outputs,
        vec![
            Output::Stdout(b"out 7\n".to_vec()),
            Output::Stderr(b"err 7\n".to_vec()),
            Output::BlankLine,
            Output::Attr(Attr::Bold),
            Output::Foreground(Color::Green),
            line("ok"),
            Output::Reset,
        ]
    );
}

#[test]
fn the_child_output_is_passed_on_byte_for_byte() {
    let stdout = vec![0u8, 255, 254, b'\n', 0xc3, 0x28, b'\r', 27, b'[', b'0', b'm'];
    let stderr = vec![0xf0u8, 0x9f, 0x92, 0xa9, 0, 0, 0x80];
    let event = Event::Finished {
        code: Some(0),
        stdout: stdout.clone(),
        stderr: stderr.clone(),
    };
    let next = step(&options(true, false, false), &FULL, State::Running, event);
    assert_eq!(
        next.outputs,
        vec![Output::Stdout(stdout), Output::Stderr(stderr)]
    );
}

#[test]
fn empty_child_output_is_still_passed_on() {
    let event = Event::Finished {
        code: Some(0),
        stdout: Vec::new(),
        stderr: Vec::new(),
    };
    let next = step(&options(true, false, false), &PLAIN, State::Running, event);
    assert_eq!(
        next.outputs,
        vec![Output::Stdout(Vec::new()), Output::Stderr(Vec::new())]
    );
}

#[test]
fn silent_drops_the_child_output() {
    let next = step(&options(false, true, false), &PLAIN, State::Running, finished(0));
    assert_eq!(next.outputs, again_plain());
    let next = step(&options(false, true, false), &PLAIN, State::Running, finished(1));
    assert_eq!(next.outputs, done_plain());
}

#[test]
fn quiet_and_silent_print_nothing() {
    let next = step(&options(true, true, false), &FULL, State::Running, finished(0));
    assert_eq!(next, Step { outputs: Vec::new(), state: State::Running });
    let next = step(&options(true, true, false), &FULL, State::Running, finished(1));
    assert_eq!(
        next,
        Step { outputs: Vec::new(), state: State::Terminated { code: 0 } }
    );
}

#[test]
fn a_command_that_cannot_run_is_fatal() {
    let next = step(&options(false, false, false), &FULL, State::Running, Event::SpawnFailed);
    assert_eq!(next.state, State::Terminated { code: 1 });
    assert_eq!(
        next.outputs,
        vec![
            Output::Attr(Attr::Bold),
            Output::Foreground(Color::Red),
            line("Command completely failed to run."),
            Output::Reset,
        ]
    );
}

#[test]
fn a_command_that_cannot_run_is_fatal_under_every_option() {
    for bits in 0..8u8 {
        let configured = options(bits & 1 != 0, bits & 2 != 0, bits & 4 != 0);
        let next = step(&configured, &PLAIN, State::Running, Event::SpawnFailed);
        assert_eq!(next.state, State::Terminated { code: 1 });
        assert_eq!(next.outputs, vec![line("Command completely failed to run.")]);
    }
}

#[test]
fn a_terminated_loop_answers_nothing() {
    for code in [0, 1] {
        let state = State::Terminated { code };
        for event in [finished(0), finished(1), Event::SpawnFailed] {
            let next = step(&options(false, false, false), &FULL, state, event);
            assert_eq!(next, Step { outputs: Vec::new(), state });
        }
    }
}

#[test]
fn an_empty_run_is_still_running() {
    let end = run(&options(false, false, false), &FULL, Vec::new());
    assert_eq!(end, Step { outputs: Vec::new(), state: State::Running });
}

#[test]
fn a_command_that_succeeds_n_times_then_fails() {
    for n in [0usize, 1, 2, 5, 40] {
        let mut events: Vec<Event> = (0..n).map(|_| finished(0)).collect();
        events.push(finished(1));
        let end = run(&options(false, false, false), &PLAIN, events);
        assert_eq!(end.state, State::Terminated { code: 0 });
        assert_eq!(count(&end.outputs, &line("no, pls")), n);
        assert_eq!(count(&end.outputs, &line("ok")), 1);
        assert_eq!(end.outputs.last(), Some(&line("ok")));
        let mut expected = Vec::new();
        for _ in 0..n {
            expected.extend(echoed(0));
            expected.extend(again_plain());
        }
        expected.extend(echoed(1));
        expected.extend(done_plain());
        assert_eq!(end.outputs, expected);
    }
}

#[test]
fn a_command_that_always_succeeds_never_stops_by_default() {
    let events: Vec<Event> = (0..100).map(|_| finished(0)).collect();
    let end = run(&options(false, true, false), &PLAIN, events);
    assert_eq!(end.state, State::Running);
    assert_eq!(count(&end.outputs, &line("no, pls")), 100);
    assert_eq!(count(&end.outputs, &line("ok")), 0);
}

#[test]
fn a_failing_command_stops_at_once_by_default() {
    let end = run(&options(false, false, false), &PLAIN, vec![finished(1)]);
    assert_eq!(end.state, State::Terminated { code: 0 });
    assert_eq!(count(&end.outputs, &line("no, pls")), 0);
    assert_eq!(count(&end.outputs, &line("ok")), 1);
}

#[test]
fn negated_a_command_that_fails_twice_then_succeeds() {
    let events = vec![finished(1), finished(1), finished(0)];
    let end = run(&options(false, false, true), &PLAIN, events);
    assert_eq!(end.state, State::Terminated { code: 0 });
    assert_eq!(count(&end.outputs, &line("no, pls")), 2);
    assert_eq!(count(&end.outputs, &line("ok")), 1);
    let mut expected = Vec::new();
    expected.extend(echoed(1));
    expected.extend(again_plain());
    expected.extend(echoed(1));
    expected.extend(again_plain());
    expected.extend(echoed(0));
    expected.extend(done_plain());
    assert_eq!(end.outputs, expected);
}

#[test]
fn negated_a_failing_command_never_stops() {
    let events: Vec<Event> = (0..50).map(|_| finished(1)).collect();
    let end = run(&options(false, true, true), &PLAIN, events);
    assert_eq!(end.state, State::Running);
    assert_eq!(count(&end.outputs, &line("no, pls")), 50);
    assert_eq!(count(&end.outputs, &line("ok")), 0);
}

#[test]
fn a_missing_executable_ends_the_run_with_code_one() {
    let end = run(&options(false, false, false), &FULL, vec![Event::SpawnFailed]);
    assert_eq!(end.state, State::Terminated { code: 1 });
    assert_eq!(
        count(&end.outputs, &line("Command completely failed to run.")),
        1
    );
    assert_eq!(count(&end.outputs, &line("ok")), 0);
    assert_eq!(count(&end.outputs, &line("no, pls")), 0);
    assert_eq!(count(&end.outputs, &Output::BlankLine), 0);
    assert_eq!(end.outputs.len(), 4);
}

#[test]
fn a_failure_to_run_is_not_tried_again() {
    let events = vec![finished(0), Event::SpawnFailed, finished(0), finished(1)];
    let end = run(&options(false, false, false), &PLAIN, events);
    assert_eq!(end.state, State::Terminated { code: 1 });
    let mut expected = echoed(0);
    expected.extend(again_plain());
    expected.push(line("Command completely failed to run."));
    assert_eq!(end.outputs, expected);
}

#[test]
fn quiet_with_a_failing_command_prints_no_status() {
    let end = run(&options(true, false, false), &FULL, vec![finished(1)]);
    assert_eq!(end.state, State::Terminated { code: 0 });
    assert_eq!(end.outputs, echoed(1));
}

#[test]
fn events_after_the_end_are_ignored() {
    let short = run(
        &options(false, false, false),
        &FULL,
        vec![finished(0), finished(2)],
    );
    let long = run(
        &options(false, false, false),
        &FULL,
        vec![finished(0), finished(2), finished(0), Event::SpawnFailed, finished(3)],
    );
    assert_eq!(short, long);
}

#[test]
fn a_run_is_the_steps_one_after_the_other() {
    let configured = options(false, false, true);
    let script = [3, 0, 1];
    let mut state = State::Running;
    let mut outputs = Vec::new();
    for code in script {
        let next = step(&configured, &FULL, state, finished(code));
        outputs.extend(next.outputs);
        state = next.state;
    }
    let end = run(
        &configured,
        &FULL,
        script.iter().map(|code| finished(*code)).collect(),
    );
    assert_eq!(end, Step { outputs, state });
}
