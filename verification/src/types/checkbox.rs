//! Checkbox items of a task list.

use vstd::prelude::*;
use vstd::string::StringExecFns;

verus! {

/// A checkbox list item.
#[derive(Debug, PartialEq)]
pub enum Checkbox {
    Checked(String),
    Unchecked(String),
}

/// What a checkbox is: its text, and whether it is ticked.
pub struct CheckboxView {
    pub text: Seq<char>,
    pub checked: bool,
}

impl View for Checkbox {
    type V = CheckboxView;

    open spec fn view(&self) -> CheckboxView {
        match self {
            Checkbox::Checked(text) => CheckboxView { text: text@, checked: true },
            Checkbox::Unchecked(text) => CheckboxView { text: text@, checked: false },
        }
    }
}

impl CheckboxView {
    /// The text of the rendered checkbox: the box, a space and the item's
    /// text, with no line feed, since the list that holds the item ends the
    /// line.
    pub open spec fn rendered(self) -> Seq<char> {
        if self.checked {
            seq!['[', 'x', ']', ' '] + self.text
        } else {
            seq!['[', ' ', ']', ' '] + self.text
        }
    }
}

impl Checkbox {
    /// Creates a new default checkbox item: unchecked, with no text.
    pub fn new() -> (item: Self)
        ensures
            item@ == (CheckboxView { text: Seq::empty(), checked: false }),
    {
        Checkbox::Unchecked(String::new())
    }

    /// Creates a new checkbox item with the given values.
    pub fn from(text: &str, checked: bool) -> (item: Self)
        ensures
            item@ == (CheckboxView { text: text@, checked }),
    {
        if checked {
            Checkbox::Checked(String::from_str(text))
        } else {
            Checkbox::Unchecked(String::from_str(text))
        }
    }

    /// Renders the checkbox.
    pub fn render(&self) -> (out: String)
        ensures
            out@ == self@.rendered(),
    {
        let mut out = String::new();
        out.push('[');
        match self {
            Checkbox::Checked(text) => {
                out.push('x');
                out.push(']');
                out.push(' ');
                out.append(text.as_str());
            },
            Checkbox::Unchecked(text) => {
                out.push(' ');
                out.push(']');
                out.push(' ');
                out.append(text.as_str());
            },
        }
        out
    }
}

impl Default for Checkbox {
    /// Returns the unchecked checkbox with no text.
    fn default() -> (item: Self)
        ensures
            item@ == (CheckboxView { text: Seq::empty(), checked: false }),
    {
        Checkbox::new()
    }
}

impl Clone for Checkbox {
    /// Copies the item.
    fn clone(&self) -> (copy: Self)
        ensures
            copy@ == self@,
    {
        match self {
            Checkbox::Checked(text) => Checkbox::Checked(text.clone()),
            Checkbox::Unchecked(text) => Checkbox::Unchecked(text.clone()),
        }
    }
}

} // verus!
