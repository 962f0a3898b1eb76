//! The symbolic outcomes of a single bounded network attempt, and their
//! spelling in configuration and in reports.

use std::str::FromStr;
use vstd::prelude::*;

verus! {

/// The classified result of one connection or request attempt.
#[derive(Clone, Copy, Debug, PartialEq, Eq, Structural)]
pub enum TcpConnectionResult {
    /// The transport answered before the deadline.
    Connected,
    /// The remote end actively rejected the connection.
    Refused,
    /// The deadline elapsed before the attempt completed.
    Timeout,
}

impl TcpConnectionResult {
    /// The outcome's name as it is printed in reports.
    pub open spec fn label(self) -> Seq<char> {
        match self {
            TcpConnectionResult::Connected => "Connected"@,
            TcpConnectionResult::Refused => "Refused"@,
            TcpConnectionResult::Timeout => "Timeout"@,
        }
    }

    /// Returns the outcome's name as it is printed in reports.
    pub fn name(&self) -> (text: &'static str)
        ensures
            text@ == self.label(),
    {
        match self {
            TcpConnectionResult::Connected => "Connected",
            TcpConnectionResult::Refused => "Refused",
            TcpConnectionResult::Timeout => "Timeout",
        }
    }
}

/// The lowercase form that `str::to_lowercase` gives a text: Unicode's
/// lowercase mapping, which depends on the text alone.
pub uninterp spec fn lowercase(text: Seq<char>) -> Seq<char>;

/// Calls `str::to_lowercase`. Trusted: the result is the lowercase form of
/// the argument, of which nothing more is claimed here.
#[verifier::external_body]
fn to_lowercase(text: &str) -> (lowered: String)
    ensures
        lowered@ == lowercase(text@),
{
    text.to_lowercase()
}

/// The outcome that a word spells, if it is one of the three lowercase
/// outcome words.
pub open spec fn word_outcome(word: Seq<char>) -> Option<TcpConnectionResult> {
    if word == "connected"@ {
        Some(TcpConnectionResult::Connected)
    } else if word == "refused"@ {
        Some(TcpConnectionResult::Refused)
    } else if word == "timeout"@ {
        Some(TcpConnectionResult::Timeout)
    } else {
        None
    }
}

/// Reads an outcome from a word that is already in lowercase; any other
/// text is rejected.
pub fn from_lowercase(word: &str) -> (parsed: Result<TcpConnectionResult, ()>)
    ensures
        parsed == match word_outcome(word@) {
            Some(outcome) => Ok::<TcpConnectionResult, ()>(outcome),
            None => Err(()),
        },
{
    let word = word.to_owned();
    if word == "connected".to_owned() {
        Ok(TcpConnectionResult::Connected)
    } else if word == "refused".to_owned() {
        Ok(TcpConnectionResult::Refused)
    } else if word == "timeout".to_owned() {
        Ok(TcpConnectionResult::Timeout)
    } else {
        Err(())
    }
}

impl FromStr for TcpConnectionResult {
    type Err = ();

    /// Reads an outcome from its name, whatever the case of its letters.
    fn from_str(s: &str) -> (parsed: Result<Self, ()>)
        ensures
            parsed == match word_outcome(lowercase(s@)) {
                Some(outcome) => Ok::<TcpConnectionResult, ()>(outcome),
                None => Err(()),
            },
    {
        let lowered = to_lowercase(s);
        from_lowercase(lowered.as_str())
    }
}

} // verus!
