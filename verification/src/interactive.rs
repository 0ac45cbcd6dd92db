//! When the client may ask the user, and what it says when it may not.

use vstd::prelude::*;
use vstd::string::*;

verus! {

/// Where a required text comes from, as mathematics.
pub enum TextOrigin {
    Given(Seq<char>),
    Missing { message: Seq<char> },
    Prompt,
}

/// Where a required text comes from.
#[derive(Debug)]
pub enum TextSource {
    /// The flag was given: its value.
    Given(String),
    /// The flag is missing and nobody can be asked.
    Missing { message: String },
    /// The flag is missing; ask the user.
    Prompt,
}

impl View for TextSource {
    type V = TextOrigin;

    open spec fn view(&self) -> TextOrigin {
        match *self {
            TextSource::Given(value) => TextOrigin::Given(value@),
            TextSource::Missing { message } => TextOrigin::Missing { message: message@ },
            TextSource::Prompt => TextOrigin::Prompt,
        }
    }
}

/// What a missing flag is reported as where nobody can be asked for it.
pub open spec fn missing_flag_message(flag_name: Seq<char>) -> Seq<char> {
    "Missing required flag --"@ + flag_name + " (non-interactive mode)"@
}

/// A value that was given is taken as it is; one that was not is asked
/// for on a terminal and reported missing elsewhere.
pub open spec fn text_origin(flag_name: Seq<char>, value: Option<String>, tty: bool) -> TextOrigin {
    match value {
        Some(v) => TextOrigin::Given(v@),
        None => if tty {
            TextOrigin::Prompt
        } else {
            TextOrigin::Missing { message: missing_flag_message(flag_name) }
        },
    }
}

/// Decides where the text of a required flag comes from.
pub fn require_text(flag_name: &str, value: Option<String>, tty: bool) -> (r: TextSource)
    ensures
        r@ == text_origin(flag_name@, value, tty),
{
    match value {
        Some(v) => TextSource::Given(v),
        None => if tty {
            TextSource::Prompt
        } else {
            let mut message = String::from_str("Missing required flag --");
            message.append(flag_name);
            message.append(" (non-interactive mode)");
            TextSource::Missing { message }
        },
    }
}

/// Whether a choice among options can be put to the user.
#[derive(Clone, Copy, Debug, PartialEq, Eq, Structural)]
pub enum Choice {
    /// Not on a terminal: nobody can be asked.
    NotInteractive,
    /// On a terminal, with nothing to choose from.
    NoOptions,
    /// Ask the user.
    Prompt,
}

/// Decides whether a choice among `options` options can be put to the
/// user. The terminal is tested first.
pub fn select(tty: bool, options: usize) -> (r: Choice)
    ensures
        r == if !tty {
            Choice::NotInteractive
        } else if options == 0 {
            Choice::NoOptions
        } else {
            Choice::Prompt
        },
{
    if !tty {
        Choice::NotInteractive
    } else if options == 0 {
        Choice::NoOptions
    } else {
        Choice::Prompt
    }
}

impl Choice {
    /// What the user is told where the choice cannot be put; nothing where
    /// it can.
    pub fn message(self) -> (r: Option<&'static str>)
        ensures
            match self {
                Choice::NotInteractive => r matches Some(m) && m@
                    == "Interactive selection required but not running in a terminal. Use flags instead."@,
                Choice::NoOptions => r matches Some(m) && m@ == "No options available."@,
                Choice::Prompt => r is None,
            },
    {
        match self {
            Choice::NotInteractive => Some(
                "Interactive selection required but not running in a terminal. Use flags instead.",
            ),
            Choice::NoOptions => Some("No options available."),
            Choice::Prompt => None,
        }
    }
}

} // verus!
