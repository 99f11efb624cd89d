//! Reading a yes or a no.

use vstd::prelude::*;

use crate::text::{lowercase_of, same_text, to_lowercase, trim, trimmed};

verus! {

/// What an answer to a yes-or-no question says.
#[derive(Clone, Copy, Debug, PartialEq, Eq)]
pub enum Confirmation {
    /// `yes`: go on.
    Proceed,
    /// `no`: leave it.
    Decline,
    /// Anything else: ask again.
    Unclear,
}

/// What an answer says once it is trimmed and in lower case.
pub open spec fn confirmation_of(normalized: Seq<char>) -> Confirmation {
    if normalized == "yes"@ {
        Confirmation::Proceed
    } else if normalized == "no"@ {
        Confirmation::Decline
    } else {
        Confirmation::Unclear
    }
}

impl Confirmation {
    /// Reads an answer that is trimmed and in lower case.
    pub fn of_normalized(normalized: &str) -> (confirmation: Confirmation)
        ensures
            confirmation == confirmation_of(normalized@),
    {
        if same_text(normalized, "yes") {
            Confirmation::Proceed
        } else if same_text(normalized, "no") {
            Confirmation::Decline
        } else {
            Confirmation::Unclear
        }
    }

    /// Reads an answer as it was typed: white space around it and the case
    /// of its letters do not count.
    pub fn parse(answer: &str) -> (confirmation: Confirmation)
        ensures
            confirmation == confirmation_of(lowercase_of(trimmed(answer@))),
    {
        let normalized: String = to_lowercase(trim(answer));
        Self::of_normalized(normalized.as_str())
    }
}

} // verus!
