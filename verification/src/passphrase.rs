//! How a passphrase is asked for, and which passphrase a line of input is.

use vstd::prelude::*;

use crate::failure::Failure;

verus! {

/// The way in which the passphrase is read.
#[derive(Clone, Copy, Debug, PartialEq, Eq, Structural)]
pub enum PassphraseSource {
    /// Prompt on the diagnostic stream, read a line without echo.
    Masked,
    /// Prompt on the diagnostic stream, read a line that stays visible.
    Visible,
    /// Read one line, without prompt or masking: input is not a terminal.
    Piped,
}

impl PassphraseSource {
    /// The source for an input channel that is or is not a terminal, with
    /// or without the request to show the passphrase.
    pub open spec fn of(interactive: bool, expose: bool) -> PassphraseSource {
        if !interactive {
            PassphraseSource::Piped
        } else if expose {
            PassphraseSource::Visible
        } else {
            PassphraseSource::Masked
        }
    }

    /// Chooses how to read the passphrase.
    pub fn select(interactive: bool, expose: bool) -> (r: PassphraseSource)
        ensures
            r == PassphraseSource::of(interactive, expose),
    {
        if !interactive {
            PassphraseSource::Piped
        } else if expose {
            PassphraseSource::Visible
        } else {
            PassphraseSource::Masked
        }
    }

    /// Whether a prompt is written, to the diagnostic stream, before the
    /// line is read.
    pub fn prompts(&self) -> (r: bool)
        ensures
            r == !(self is Piped),
    {
        match self {
            PassphraseSource::Piped => false,
            _ => true,
        }
    }
}

/// A line of input without the line ending that closes it, if it has one:
/// a line feed, or a carriage return and a line feed.
pub open spec fn without_line_ending(line: Seq<char>) -> Seq<char> {
    if line.len() > 0 && line.last() == '\n' {
        let rest = line.drop_last();
        if rest.len() > 0 && rest.last() == '\r' {
            rest.drop_last()
        } else {
            rest
        }
    } else {
        line
    }
}

/// The passphrase that a line of input gives: the line without its ending,
/// which must not be empty.
pub open spec fn accepted_passphrase(line: Seq<char>) -> Result<Seq<char>, Failure> {
    if without_line_ending(line).len() == 0 {
        Err(Failure::EmptyPassphrase)
    } else {
        Ok(without_line_ending(line))
    }
}

/// Takes the passphrase out of a line of input. Fails on an empty
/// passphrase, so that nothing is ever derived from one.
pub fn accept_passphrase(line: &str) -> (r: Result<String, Failure>)
    ensures
        match r {
            Ok(passphrase) => Ok(passphrase@),
            Err(e) => Err(e),
        } == accepted_passphrase(line@),
{
    let mut end: usize = line.unicode_len();
    if end > 0 && line.get_char(end - 1) == '\n' {
        end = end - 1;
        if end > 0 && line.get_char(end - 1) == '\r' {
            end = end - 1;
        }
    }
    assert(line@.subrange(0, end as int) == without_line_ending(line@));
    if end == 0 {
        Err(Failure::EmptyPassphrase)
    } else {
        Ok(line.substring_char(0, end).to_owned())
    }
}

} // verus!
