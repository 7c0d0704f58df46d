//! The run configuration, and how it is resolved from what was found on the
//! command line.

use vstd::prelude::*;

verus! {

/// `c` with an ASCII capital made small; any other character is left alone.
pub open spec fn ascii_lower(c: char) -> char {
    if 'A' <= c && c <= 'Z' {
        ((c as u8 + 32) as u8) as char
    } else {
        c
    }
}

/// `text` with every ASCII capital made small.
pub open spec fn ascii_lowercase(text: Seq<char>) -> Seq<char> {
    Seq::new(text.len(), |i: int| ascii_lower(text[i]))
}

/// Makes an ASCII capital small.
fn to_ascii_lower(c: char) -> (lower: char)
    ensures
        lower == ascii_lower(c),
{
    if 'A' <= c && c <= 'Z' {
        ((c as u8) + 32) as char
    } else {
        c
    }
}

/// Whether `text` reads `lowered` once its ASCII capitals are made small.
fn lowercase_is(text: &str, lowered: &str) -> (equal: bool)
    ensures
        equal == (ascii_lowercase(text@) == lowered@),
{
    let n = text.unicode_len();
    if n != lowered.unicode_len() {
        return false;
    }
    let mut i: usize = 0;
    while i < n
        invariant
            n == text@.len(),
            n == lowered@.len(),
            i <= n,
            forall|j: int| 0 <= j < i ==> ascii_lower(text@[j]) == lowered@[j],
        decreases n - i,
    {
        if to_ascii_lower(text.get_char(i)) != lowered.get_char(i) {
            return false;
        }
        i += 1;
    }
    assert(ascii_lowercase(text@) =~= lowered@);
    true
}

/// A shell for which a completion script can be written.
#[derive(Clone, Copy, Debug, PartialEq, Eq)]
pub enum Shell {
    Bash,
    Fish,
    Zsh,
    PowerShell,
    Elvish,
}

impl Shell {
    /// The shell that `name` stands for, whatever the case of its letters.
    pub open spec fn named(name: Seq<char>) -> Option<Shell> {
        let lowered = ascii_lowercase(name);
        if lowered == "bash"@ {
            Some(Shell::Bash)
        } else if lowered == "fish"@ {
            Some(Shell::Fish)
        } else if lowered == "zsh"@ {
            Some(Shell::Zsh)
        } else if lowered == "powershell"@ {
            Some(Shell::PowerShell)
        } else if lowered == "elvish"@ {
            Some(Shell::Elvish)
        } else {
            None
        }
    }

    /// Finds the shell that `name` stands for: one of `bash`, `fish`, `zsh`,
    /// `powershell` and `elvish`, in any mix of capitals and small letters.
    pub fn from_name(name: &str) -> (shell: Option<Shell>)
        ensures
            shell == Shell::named(name@),
    {
        if lowercase_is(name, "bash") {
            Some(Shell::Bash)
        } else if lowercase_is(name, "fish") {
            Some(Shell::Fish)
        } else if lowercase_is(name, "zsh") {
            Some(Shell::Zsh)
        } else if lowercase_is(name, "powershell") {
            Some(Shell::PowerShell)
        } else if lowercase_is(name, "elvish") {
            Some(Shell::Elvish)
        } else {
            None
        }
    }
}

/// The run configuration: what to run, and how the loop behaves.
#[derive(Debug, PartialEq, Eq)]
pub struct Options {
    /// The command to be run.
    pub command: String,
    /// The arguments handed to the command, in order.
    pub args: Vec<String>,
    /// Whether the loop's own status messages are suppressed.
    pub quiet: bool,
    /// Whether the output of the command is suppressed.
    pub silent: bool,
    /// Which exit status ends the loop. When set, the loop goes on while the
    /// command fails and stops at its first success; when clear, it goes on
    /// while the command succeeds and stops at its first failure.
    pub stop_when_successful: bool,
}

/// The mathematical value of [`Options`].
pub struct OptionsView {
    pub command: Seq<char>,
    pub args: Seq<Seq<char>>,
    pub quiet: bool,
    pub silent: bool,
    pub stop_when_successful: bool,
}

impl OptionsView {
    /// A configuration can be run when it names a command.
    pub open spec fn wf(self) -> bool {
        self.command.len() > 0
    }
}

impl View for Options {
    type V = OptionsView;

    open spec fn view(&self) -> OptionsView {
        OptionsView {
            command: self.command@,
            args: self.args.deep_view(),
            quiet: self.quiet,
            silent: self.silent,
            stop_when_successful: self.stop_when_successful,
        }
    }
}

/// What the argument parser found on the command line.
#[derive(Debug, PartialEq, Eq)]
pub struct Matches {
    /// `-q` or `--quiet` was given.
    pub quiet: bool,
    /// `-s` or `--silent` was given.
    pub silent: bool,
    /// `-n` or `--negate` was given.
    pub negate: bool,
    /// The value of `--gen-completions`, if it was given.
    pub gen_completions: Option<String>,
    /// The positional tokens: the command, then its arguments.
    pub command: Vec<String>,
}

/// The mathematical value of [`Matches`].
pub struct MatchesView {
    pub quiet: bool,
    pub silent: bool,
    pub negate: bool,
    pub gen_completions: Option<Seq<char>>,
    pub command: Seq<Seq<char>>,
}

impl View for Matches {
    type V = MatchesView;

    open spec fn view(&self) -> MatchesView {
        MatchesView {
            quiet: self.quiet,
            silent: self.silent,
            negate: self.negate,
            gen_completions: match self.gen_completions {
                Some(name) => Some(name@),
                None => None,
            },
            command: self.command.deep_view(),
        }
    }
}

/// What the process is to do.
#[derive(Debug, PartialEq, Eq)]
pub enum Resolution {
    /// Run the retry loop with this configuration.
    Run(Options),
    /// Write the completion script for this shell and leave; the loop is
    /// never entered.
    Completions(Shell),
}

/// The mathematical value of a [`Resolution`].
pub enum ResolutionView {
    Run(OptionsView),
    Completions(Shell),
}

impl View for Resolution {
    type V = ResolutionView;

    open spec fn view(&self) -> ResolutionView {
        match self {
            Resolution::Run(options) => ResolutionView::Run(options@),
            Resolution::Completions(shell) => ResolutionView::Completions(*shell),
        }
    }
}

/// Why the command line cannot be resolved.
#[derive(Clone, Copy, Debug, PartialEq, Eq)]
pub enum UsageError {
    /// `--gen-completions` names no known shell.
    UnknownShell,
    /// Neither a command nor `--gen-completions` was given.
    MissingCommand,
    /// The command is the empty string.
    EmptyCommand,
}

impl Options {
    /// Whether the configuration names a command.
    pub open spec fn wf(&self) -> bool {
        self@.wf()
    }

    /// What `matches` resolve to. A request for completions goes before
    /// everything else. Otherwise the first positional token is the command
    /// and the rest are its arguments, untouched.
    pub open spec fn resolve(matches: MatchesView) -> Result<ResolutionView, UsageError> {
        match matches.gen_completions {
            Some(name) => match Shell::named(name) {
                Some(shell) => Ok(ResolutionView::Completions(shell)),
                None => Err(UsageError::UnknownShell),
            },
            None => if matches.command.len() == 0 {
                Err(UsageError::MissingCommand)
            } else if matches.command[0].len() == 0 {
                Err(UsageError::EmptyCommand)
            } else {
                Ok(
                    ResolutionView::Run(
                        OptionsView {
                            command: matches.command[0],
                            args: matches.command.skip(1),
                            quiet: matches.quiet,
                            silent: matches.silent,
                            stop_when_successful: matches.negate,
                        },
                    ),
                )
            },
        }
    }

    /// Resolves the configuration from what was found on the command line.
    pub fn new(matches: Matches) -> (resolved: Result<Resolution, UsageError>)
        ensures
            match Options::resolve(matches@) {
                Ok(expected) => resolved matches Ok(resolution) && resolution@ == expected,
                Err(error) => resolved == Err::<Resolution, UsageError>(error),
            },
            resolved matches Ok(Resolution::Run(options)) ==> options.wf(),
    {
        let Matches { quiet, silent, negate, gen_completions, command } = matches;
        match gen_completions {
            Some(name) => match Shell::from_name(name.as_str()) {
                Some(shell) => Ok(Resolution::Completions(shell)),
                None => Err(UsageError::UnknownShell),
            },
            None => {
                let mut tokens = command;
                if tokens.len() == 0 {
                    return Err(UsageError::MissingCommand);
                }
                let first = tokens.remove(0);
                if first.as_str().is_empty() {
                    return Err(UsageError::EmptyCommand);
                }
                assert(tokens.deep_view() =~= command.deep_view().skip(1));
                Ok(
                    Resolution::Run(
                        Options {
                            command: first,
                            args: tokens,
                            quiet,
                            silent,
                            stop_when_successful: negate,
                        },
                    ),
                )
            },
        }
    }
}

} // verus!
