//! The status messages that the loop prints between and after its iterations.

use vstd::prelude::*;
use crate::options::Options;
use crate::terminal::{
    lemma_style_is_styling, lemma_unstyled_add, lemma_unstyled_empty, lemma_unstyled_one,
    lemma_views_push, push_style_off, push_style_on, style_off, style_on, unstyled, views, Attr,
    Capabilities, Color, Output, OutputView,
};

verus! {

/// The "done" message: an empty line, then `ok` in bold green as far as the
/// terminal supports it. Nothing at all when `quiet`.
pub open spec fn ok_outputs(quiet: bool, caps: Capabilities) -> Seq<OutputView> {
    if quiet {
        seq![]
    } else {
        seq![OutputView::BlankLine] + style_on(caps, false, Color::Green) + seq![
            OutputView::Line("ok"@),
        ] + style_off(caps)
    }
}

/// The "continue" message: an empty line, then `no, pls` blinking in bold red
/// as far as the terminal supports it, then another empty line. Nothing at all
/// when `quiet`.
pub open spec fn no_pls_outputs(quiet: bool, caps: Capabilities) -> Seq<OutputView> {
    if quiet {
        seq![]
    } else {
        seq![OutputView::BlankLine] + style_on(caps, true, Color::Red) + seq![
            OutputView::Line("no, pls"@),
        ] + style_off(caps) + seq![OutputView::BlankLine]
    }
}

/// The steps that print the "done" message, unless the options suppress it.
pub fn ok(options: &Options, caps: &Capabilities) -> (outputs: Vec<Output>)
    ensures
        views(outputs@) == ok_outputs(options.quiet, *caps),
        options.quiet ==> outputs@.len() == 0,
{
    let mut outputs: Vec<Output> = Vec::new();
    if !options.quiet {
        let text = String::from_str("ok");
        proof {
            lemma_views_push(outputs@, Output::BlankLine);
        }
        outputs.push(Output::BlankLine);
        push_style_on(&mut outputs, caps, false, Color::Green);
        proof {
            lemma_views_push(outputs@, Output::Line(text));
        }
        outputs.push(Output::Line(text));
        push_style_off(&mut outputs, caps);
    }
    outputs
}

/// The steps that print the "continue" message, unless the options suppress
/// it.
pub fn no_pls(options: &Options, caps: &Capabilities) -> (outputs: Vec<Output>)
    ensures
        views(outputs@) == no_pls_outputs(options.quiet, *caps),
        options.quiet ==> outputs@.len() == 0,
{
    let mut outputs: Vec<Output> = Vec::new();
    if !options.quiet {
        let text = String::from_str("no, pls");
        proof {
            lemma_views_push(outputs@, Output::BlankLine);
        }
        outputs.push(Output::BlankLine);
        push_style_on(&mut outputs, caps, true, Color::Red);
        proof {
            lemma_views_push(outputs@, Output::Line(text));
        }
        outputs.push(Output::Line(text));
        push_style_off(&mut outputs, caps);
        proof {
            lemma_views_push(outputs@, Output::BlankLine);
        }
        outputs.push(Output::BlankLine);
    }
    outputs
}

/// What a terminal can do changes how the "done" message looks, never what
/// it says: without its styling steps it is the message that a terminal
/// without capabilities gets.
pub proof fn lemma_ok_unstyled(quiet: bool, caps: Capabilities)
    ensures
        unstyled(ok_outputs(quiet, caps)) == ok_outputs(quiet, Capabilities::plain()),
{
    if quiet {
        lemma_unstyled_empty();
    } else {
        let blank = seq![OutputView::BlankLine];
        let on = style_on(caps, false, Color::Green);
        let line = seq![OutputView::Line("ok"@)];
        let off = style_off(caps);
        let none = Seq::<OutputView>::empty();
        lemma_style_is_styling(caps, false, Color::Green);
        lemma_unstyled_one(OutputView::BlankLine);
        lemma_unstyled_one(OutputView::Line("ok"@));
        lemma_unstyled_add(blank, on);
        lemma_unstyled_add(blank + on, line);
        lemma_unstyled_add(blank + on + line, off);
        assert(blank + none + line + none =~= blank + line);
    }
}

/// What a terminal can do changes how the "continue" message looks, never
/// what it says: without its styling steps it is the message that a terminal
/// without capabilities gets.
pub proof fn lemma_no_pls_unstyled(quiet: bool, caps: Capabilities)
    ensures
        unstyled(no_pls_outputs(quiet, caps)) == no_pls_outputs(quiet, Capabilities::plain()),
{
    if quiet {
        lemma_unstyled_empty();
    } else {
        let blank = seq![OutputView::BlankLine];
        let on = style_on(caps, true, Color::Red);
        let line = seq![OutputView::Line("no, pls"@)];
        let off = style_off(caps);
        let none = Seq::<OutputView>::empty();
        lemma_style_is_styling(caps, true, Color::Red);
        lemma_unstyled_one(OutputView::BlankLine);
        lemma_unstyled_one(OutputView::Line("no, pls"@));
        lemma_unstyled_add(blank, on);
        lemma_unstyled_add(blank + on, line);
        lemma_unstyled_add(blank + on + line, off);
        lemma_unstyled_add(blank + on + line + off, blank);
        assert(blank + none + line + none + blank =~= blank + line + blank);
    }
}

/// In the "done" message each step is decided by its own capability: bold is
/// switched on exactly where the terminal supports bold, green is set exactly
/// where it supports colour, and the reset comes, last of all, exactly where
/// it supports a reset. The message never blinks and is never red.
pub proof fn lemma_ok_steps(caps: Capabilities)
    ensures
        ok_outputs(false, caps).contains(OutputView::Attr(Attr::Bold)) <==> caps.bold,
        ok_outputs(false, caps).contains(OutputView::Foreground(Color::Green)) <==> caps.color,
        ok_outputs(false, caps).contains(OutputView::Reset) <==> caps.reset,
        caps.reset ==> ok_outputs(false, caps).last() == OutputView::Reset,
        !ok_outputs(false, caps).contains(OutputView::Attr(Attr::Blink)),
        !ok_outputs(false, caps).contains(OutputView::Foreground(Color::Red)),
        ok_outputs(false, caps).contains(OutputView::Line("ok"@)),
{
    let steps = ok_outputs(false, caps);
    let bold: int = if caps.bold { 1 } else { 0 };
    let colored: int = if caps.color { 1 } else { 0 };
    assert(steps[0] == OutputView::BlankLine);
    if caps.bold {
        assert(steps[1] == OutputView::Attr(Attr::Bold));
    }
    if caps.color {
        assert(steps[1 + bold] == OutputView::Foreground(Color::Green));
    }
    assert(steps[1 + bold + colored] == OutputView::Line("ok"@));
    if caps.reset {
        assert(steps[2 + bold + colored] == OutputView::Reset);
    }
}

/// In the "continue" message each step is decided by its own capability:
/// blinking is switched on exactly where the terminal supports blinking, bold
/// exactly where it supports bold, red is set exactly where it supports
/// colour, and the reset comes after the text exactly where it supports a
/// reset. The message is never green.
pub proof fn lemma_no_pls_steps(caps: Capabilities)
    ensures
        no_pls_outputs(false, caps).contains(OutputView::Attr(Attr::Blink)) <==> caps.blink,
        no_pls_outputs(false, caps).contains(OutputView::Attr(Attr::Bold)) <==> caps.bold,
        no_pls_outputs(false, caps).contains(OutputView::Foreground(Color::Red)) <==> caps.color,
        no_pls_outputs(false, caps).contains(OutputView::Reset) <==> caps.reset,
        !no_pls_outputs(false, caps).contains(OutputView::Foreground(Color::Green)),
        no_pls_outputs(false, caps).contains(OutputView::Line("no, pls"@)),
{
    let steps = no_pls_outputs(false, caps);
    let blinking: int = if caps.blink { 1 } else { 0 };
    let bold: int = if caps.bold { 1 } else { 0 };
    let colored: int = if caps.color { 1 } else { 0 };
    assert(steps[0] == OutputView::BlankLine);
    if caps.blink {
        assert(steps[1] == OutputView::Attr(Attr::Blink));
    }
    if caps.bold {
        assert(steps[1 + blinking] == OutputView::Attr(Attr::Bold));
    }
    if caps.color {
        assert(steps[1 + blinking + bold] == OutputView::Foreground(Color::Red));
    }
    assert(steps[1 + blinking + bold + colored] == OutputView::Line("no, pls"@));
    if caps.reset {
        assert(steps[2 + blinking + bold + colored] == OutputView::Reset);
    }
}

} // verus!
