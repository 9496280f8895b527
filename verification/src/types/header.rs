//! Headers and their levels.

use crate::error::ValidationError;
use crate::text::{push_repeated, repeated};
use vstd::prelude::*;
use vstd::string::StringExecFns;

verus! {

/// The level of a header: one for the most important, six for the least.
///
/// A level is always between one and six. The field is private, so only the
/// constructors below make levels, and the type invariant holds of every one.
#[derive(Clone, Copy, Debug, Eq, PartialEq)]
pub struct HeaderLevel(usize);

impl View for HeaderLevel {
    type V = nat;

    closed spec fn view(&self) -> nat {
        self.0 as nat
    }
}

impl HeaderLevel {
    #[verifier::type_invariant]
    spec fn in_range(self) -> bool {
        1 <= self.0 <= 6
    }

    /// Creates the default header level, which is one.
    pub fn new() -> (level: Self)
        ensures
            level@ == 1,
    {
        HeaderLevel(1)
    }

    /// Creates a header level, or refuses a number that is not between one
    /// and six.
    pub fn from(level: usize) -> (made: Result<Self, ValidationError>)
        ensures
            1 <= level <= 6 ==> made is Ok && made->Ok_0@ == level,
            !(1 <= level <= 6) ==> made == Err::<Self, ValidationError>(
                ValidationError::InvalidLevel,
            ),
    {
        if 1 <= level && level <= 6 {
            Ok(HeaderLevel(level))
        } else {
            Err(ValidationError::InvalidLevel)
        }
    }

    /// The level as a number, which is between one and six.
    pub fn value(&self) -> (level: usize)
        ensures
            level == self@,
            1 <= level <= 6,
    {
        proof {
            use_type_invariant(self);
        }
        self.0
    }
}

impl Default for HeaderLevel {
    /// Returns the default header level, which is one.
    fn default() -> (level: Self)
        ensures
            level@ == 1,
    {
        HeaderLevel::new()
    }
}

/// A markdown header.
#[derive(Debug, Eq, PartialEq)]
pub struct Header {
    /// The header text.
    pub text: String,
    /// The header level.
    pub level: HeaderLevel,
}

/// What a header is: its text and the number of its level.
pub struct HeaderView {
    pub text: Seq<char>,
    pub level: nat,
}

impl View for Header {
    type V = HeaderView;

    open spec fn view(&self) -> HeaderView {
        HeaderView { text: self.text@, level: self.level@ }
    }
}

impl HeaderView {
    /// The text of the rendered header: one `#` for each level, a space, the
    /// header's text and a line feed.
    pub open spec fn rendered(self) -> Seq<char> {
        repeated('#', self.level) + seq![' '] + self.text + seq!['\n']
    }
}

/// A rendered header starts with exactly as many `#` as its level says, and
/// a single space follows them.
pub proof fn lemma_header_starts_with_its_level(text: Seq<char>, level: nat)
    requires
        1 <= level <= 6,
    ensures
        ({
            let out = (HeaderView { text, level }).rendered();
            &&& out.len() > level
            &&& forall|i: int| 0 <= i < level ==> out[i] == '#'
            &&& out[level as int] == ' '
        }),
{
}

impl Header {
    /// Creates a new empty header with a level of one.
    pub fn new() -> (header: Self)
        ensures
            header@ == (HeaderView { text: Seq::empty(), level: 1 }),
    {
        Header { text: String::new(), level: HeaderLevel::new() }
    }

    /// Creates a new header, or refuses a level that is not between one and
    /// six. A lower level means a more important header.
    pub fn from(text: &str, level: usize) -> (made: Result<Self, ValidationError>)
        ensures
            1 <= level <= 6 ==> made is Ok && made->Ok_0@ == (HeaderView {
                text: text@,
                level: level as nat,
            }),
            !(1 <= level <= 6) ==> made == Err::<Self, ValidationError>(
                ValidationError::InvalidLevel,
            ),
    {
        match HeaderLevel::from(level) {
            Ok(level) => Ok(Header { text: String::from_str(text), level }),
            Err(error) => Err(error),
        }
    }

    /// Renders the header.
    pub fn render(&self) -> (out: String)
        ensures
            out@ == self@.rendered(),
    {
        let mut out = String::new();
        push_repeated(&mut out, '#', self.level.value());
        out.push(' ');
        out.append(self.text.as_str());
        out.push('\n');
        out
    }
}

impl Default for Header {
    /// Returns the empty header with a level of one.
    fn default() -> (header: Self)
        ensures
            header@ == (HeaderView { text: Seq::empty(), level: 1 }),
    {
        Header::new()
    }
}

impl Clone for Header {
    /// Copies the header.
    fn clone(&self) -> (copy: Self)
        ensures
            copy@ == self@,
    {
        Header { text: self.text.clone(), level: self.level }
    }
}

} // verus!
