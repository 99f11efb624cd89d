//! The forms in which a report can be written.

use vstd::prelude::*;

verus! {

/// How the result is written: for a person, or as JSON or YAML for a program.
#[derive(Clone, Copy, Debug, PartialEq, Eq)]
pub enum OutputFormat {
    Human,
    Json,
    Yaml,
}

impl Default for OutputFormat {
    fn default() -> (format: Self)
        ensures
            format == OutputFormat::Human,
    {
        OutputFormat::Human
    }
}

impl OutputFormat {
    /// Only the form for a person carries progress messages; a structured
    /// form is kept free of them so that it can be parsed.
    pub open spec fn is_conversational(self) -> bool {
        self == OutputFormat::Human
    }

    /// Whether greetings and notes are written in this form.
    pub fn shows_progress(&self) -> (shown: bool)
        ensures
            shown == self.is_conversational(),
    {
        match self {
            OutputFormat::Human => true,
            _ => false,
        }
    }

    /// The number under which the estimation at `index` of `count` is
    /// listed: none where it is the only one.
    pub open spec fn cluster_label(index: usize, count: usize) -> Option<usize> {
        if count == 1 {
            None
        } else {
            Some(index)
        }
    }

    /// Computes [`OutputFormat::cluster_label`].
    pub fn cluster_number(index: usize, count: usize) -> (label: Option<usize>)
        ensures
            label == Self::cluster_label(index, count),
    {
        if count == 1 {
            None
        } else {
            Some(index)
        }
    }
}

} // verus!
