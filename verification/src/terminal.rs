//! What a terminal can do, and the output steps that the loop asks for.

use vstd::prelude::*;

verus! {

/// A text attribute that a terminal may be able to switch on.
#[derive(Clone, Copy, Debug, PartialEq, Eq)]
pub enum Attr {
    Bold,
    Blink,
}

/// A foreground colour.
#[derive(Clone, Copy, Debug, PartialEq, Eq)]
pub enum Color {
    Red,
    Green,
}

/// The answers of a terminal to the capability queries, taken once at startup.
/// The four answers are independent of each other.
#[derive(Clone, Copy, Debug, PartialEq, Eq)]
pub struct Capabilities {
    /// Attributes and colours can be reset to their defaults.
    pub reset: bool,
    /// Colours can be set.
    pub color: bool,
    /// Bold text can be switched on.
    pub bold: bool,
    /// Blinking text can be switched on.
    pub blink: bool,
}

impl Capabilities {
    /// A terminal without any capability: plain text only.
    pub open spec fn plain() -> Capabilities {
        Capabilities { reset: false, color: false, bold: false, blink: false }
    }

    /// Whether `attr` can be switched on.
    pub open spec fn spec_supports_attr(&self, attr: Attr) -> bool {
        match attr {
            Attr::Bold => self.bold,
            Attr::Blink => self.blink,
        }
    }

    /// Whether `attr` can be switched on.
    #[verifier::when_used_as_spec(spec_supports_attr)]
    pub fn supports_attr(&self, attr: Attr) -> (supported: bool)
        ensures
            supported == self.spec_supports_attr(attr),
    {
        match attr {
            Attr::Bold => self.bold,
            Attr::Blink => self.blink,
        }
    }
}

/// One step of output, performed by the caller in the order given.
#[derive(Debug, PartialEq, Eq)]
pub enum Output {
    /// Bytes that the child wrote to its standard output, passed through.
    Stdout(Vec<u8>),
    /// Bytes that the child wrote to its standard error, passed through.
    Stderr(Vec<u8>),
    /// An empty line.
    BlankLine,
    /// Switch a text attribute on.
    Attr(Attr),
    /// Set the foreground colour.
    Foreground(Color),
    /// A line of text.
    Line(String),
    /// Reset attributes and colours to the terminal's defaults.
    Reset,
}

/// The mathematical value of an [`Output`].
pub enum OutputView {
    Stdout(Seq<u8>),
    Stderr(Seq<u8>),
    BlankLine,
    Attr(Attr),
    Foreground(Color),
    Line(Seq<char>),
    Reset,
}

impl View for Output {
    type V = OutputView;

    open spec fn view(&self) -> OutputView {
        match self {
            Output::Stdout(bytes) => OutputView::Stdout(bytes@),
            Output::Stderr(bytes) => OutputView::Stderr(bytes@),
            Output::BlankLine => OutputView::BlankLine,
            Output::Attr(attr) => OutputView::Attr(*attr),
            Output::Foreground(color) => OutputView::Foreground(*color),
            Output::Line(text) => OutputView::Line(text@),
            Output::Reset => OutputView::Reset,
        }
    }
}

/// The values of a sequence of outputs, in the same order.
pub open spec fn views(outputs: Seq<Output>) -> Seq<OutputView> {
    Seq::new(outputs.len(), |i: int| outputs[i]@)
}

/// Mapping outputs to their values goes through `push`.
pub proof fn lemma_views_push(outputs: Seq<Output>, output: Output)
    ensures
        views(outputs.push(output)) == views(outputs).push(output@),
{
}

/// Mapping outputs to their values goes through concatenation.
pub proof fn lemma_views_add(first: Seq<Output>, second: Seq<Output>)
    ensures
        views(first + second) == views(first) + views(second),
{
}

/// Whether an output changes how text looks and nothing else.
pub open spec fn is_styling(output: OutputView) -> bool {
    output is Attr || output is Foreground || output is Reset
}

/// Whether an output passes on what a child wrote.
pub open spec fn is_child_output(output: OutputView) -> bool {
    output is Stdout || output is Stderr
}

/// `outputs` without the steps that only change how text looks.
pub open spec fn unstyled(outputs: Seq<OutputView>) -> Seq<OutputView> {
    outputs.filter(|output: OutputView| !is_styling(output))
}

/// The steps that switch a style on before a line of text: blinking if asked
/// for, then bold, then the colour. Each is decided by its own capability and
/// by nothing else: one that the terminal does not support is left out, and
/// the others still apply.
pub open spec fn style_on(caps: Capabilities, blink: bool, color: Color) -> Seq<OutputView> {
    (if blink && caps.blink {
        seq![OutputView::Attr(Attr::Blink)]
    } else {
        seq![]
    }) + (if caps.bold {
        seq![OutputView::Attr(Attr::Bold)]
    } else {
        seq![]
    }) + (if caps.color {
        seq![OutputView::Foreground(color)]
    } else {
        seq![]
    })
}

/// The steps that switch every style off again after a line of text: a reset
/// where the terminal supports one, whatever was switched on.
pub open spec fn style_off(caps: Capabilities) -> Seq<OutputView> {
    if caps.reset {
        seq![OutputView::Reset]
    } else {
        seq![]
    }
}

/// Appends the steps of [`style_on`] to `outputs`.
pub(crate) fn push_style_on(
    outputs: &mut Vec<Output>,
    caps: &Capabilities,
    blink: bool,
    color: Color,
)
    ensures
        views(final(outputs)@) == views(old(outputs)@) + style_on(*caps, blink, color),
{
    if blink && caps.supports_attr(Attr::Blink) {
        proof {
            lemma_views_push(outputs@, Output::Attr(Attr::Blink));
        }
        outputs.push(Output::Attr(Attr::Blink));
    }
    if caps.supports_attr(Attr::Bold) {
        proof {
            lemma_views_push(outputs@, Output::Attr(Attr::Bold));
        }
        outputs.push(Output::Attr(Attr::Bold));
    }
    if caps.color {
        proof {
            lemma_views_push(outputs@, Output::Foreground(color));
        }
        outputs.push(Output::Foreground(color));
    }
}

/// Appends the steps of [`style_off`] to `outputs`.
pub(crate) fn push_style_off(outputs: &mut Vec<Output>, caps: &Capabilities)
    ensures
        views(final(outputs)@) == views(old(outputs)@) + style_off(*caps),
{
    if caps.reset {
        proof {
            lemma_views_push(outputs@, Output::Reset);
        }
        outputs.push(Output::Reset);
    }
}

/// Removing the styling goes through concatenation.
pub proof fn lemma_unstyled_add(first: Seq<OutputView>, second: Seq<OutputView>)
    ensures
        unstyled(first + second) == unstyled(first) + unstyled(second),
{
    Seq::filter_distributes_over_add(first, second, |output: OutputView| !is_styling(output));
}

/// Nothing is left of nothing.
pub proof fn lemma_unstyled_empty()
    ensures
        unstyled(Seq::<OutputView>::empty()) == Seq::<OutputView>::empty(),
{
    Seq::<OutputView>::empty().lemma_filter_len(|output: OutputView| !is_styling(output));
}

/// Removing the styling from a single step drops it if it is styling and
/// keeps it otherwise.
pub proof fn lemma_unstyled_one(output: OutputView)
    ensures
        unstyled(seq![output]) == if is_styling(output) {
            Seq::<OutputView>::empty()
        } else {
            seq![output]
        },
{
    lemma_unstyled_empty();
    Seq::<OutputView>::empty().lemma_filter_push(
        output,
        |output: OutputView| !is_styling(output),
    );
    assert(Seq::<OutputView>::empty().push(output) =~= seq![output]);
}

/// Switching a style on and off is styling and nothing else, and a terminal
/// without capabilities is never asked for either.
pub proof fn lemma_style_is_styling(caps: Capabilities, blink: bool, color: Color)
    ensures
        unstyled(style_on(caps, blink, color)) == Seq::<OutputView>::empty(),
        unstyled(style_off(caps)) == Seq::<OutputView>::empty(),
        style_on(Capabilities::plain(), blink, color) == Seq::<OutputView>::empty(),
        style_off(Capabilities::plain()) == Seq::<OutputView>::empty(),
{
    let none = Seq::<OutputView>::empty();
    let blinking = if blink && caps.blink {
        seq![OutputView::Attr(Attr::Blink)]
    } else {
        none
    };
    let bold = if caps.bold {
        seq![OutputView::Attr(Attr::Bold)]
    } else {
        none
    };
    let colored = if caps.color {
        seq![OutputView::Foreground(color)]
    } else {
        none
    };
    lemma_unstyled_empty();
    lemma_unstyled_one(OutputView::Attr(Attr::Blink));
    lemma_unstyled_one(OutputView::Attr(Attr::Bold));
    lemma_unstyled_one(OutputView::Foreground(color));
    lemma_unstyled_one(OutputView::Reset);
    lemma_unstyled_add(blinking, bold);
    lemma_unstyled_add(blinking + bold, colored);
    assert(none + none =~= none);
}

} // verus!
