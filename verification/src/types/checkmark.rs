//! Checkmark items of a task list.

use vstd::prelude::*;
use vstd::string::StringExecFns;

verus! {

/// A checkmark list item.
#[derive(Debug, PartialEq)]
pub enum Checkmark {
    Checked(String),
    Unchecked(String),
}

/// What a checkmark is: its text, and whether it is ticked.
pub struct CheckmarkView {
    pub text: Seq<char>,
    pub checked: bool,
}

impl View for Checkmark {
    type V = CheckmarkView;

    open spec fn view(&self) -> CheckmarkView {
        match self {
            Checkmark::Checked(text) => CheckmarkView { text: text@, checked: true },
            Checkmark::Unchecked(text) => CheckmarkView { text: text@, checked: false },
        }
    }
}

impl CheckmarkView {
    /// The text of the rendered checkmark: the box, a space and the item's
    /// text, with no line feed, since the list that holds the item ends the
    /// line.
    pub open spec fn rendered(self) -> Seq<char> {
        if self.checked {
            seq!['[', 'x', ']', ' '] + self.text
        } else {
            seq!['[', ' ', ']', ' '] + self.text
        }
    }
}

impl Checkmark {
    /// Creates a new default checkmark item: unchecked, with no text.
    pub fn new() -> (item: Self)
        ensures
            item@ == (CheckmarkView { text: Seq::empty(), checked: false }),
    {
        Checkmark::Unchecked(String::new())
    }

    /// Creates a new checkmark item with the given values.
    pub fn from(text: &str, checked: bool) -> (item: Self)
        ensures
            item@ == (CheckmarkView { text: text@, checked }),
    {
        if checked {
            Checkmark::Checked(String::from_str(text))
        } else {
            Checkmark::Unchecked(String::from_str(text))
        }
    }

    /// Renders the checkmark.
    pub fn render(&self) -> (out: String)
        ensures
            out@ == self@.rendered(),
    {
        let mut out = String::new();
        out.push('[');
        match self {
            Checkmark::Checked(text) => {
                out.push('x');
                out.push(']');
                out.push(' ');
                out.append(text.as_str());
            },
            Checkmark::Unchecked(text) => {
                out.push(' ');
                out.push(']');
                out.push(' ');
                out.append(text.as_str());
            },
        }
        out
    }
}

impl Default for Checkmark {
    /// Returns the unchecked checkmark with no text.
    fn default() -> (item: Self)
        ensures
            item@ == (CheckmarkView { text: Seq::empty(), checked: false }),
    {
        Checkmark::new()
    }
}

impl Clone for Checkmark {
    /// Copies the item.
    fn clone(&self) -> (copy: Self)
        ensures
            copy@ == self@,
    {
        match self {
            Checkmark::Checked(text) => Checkmark::Checked(text.clone()),
            Checkmark::Unchecked(text) => Checkmark::Unchecked(text.clone()),
        }
    }
}

} // verus!
