//! The ways in which constructing an element can be refused.

use vstd::prelude::*;

verus! {

/// Why a constructor or a builder refused its input.
///
/// Validation happens when a value is constructed: a value that exists is
/// well formed, and rendering it cannot fail.
#[derive(Clone, Copy, Debug, PartialEq, Eq)]
pub enum ValidationError {
    /// A header level outside of one to six.
    InvalidLevel,
    /// A link or an image was built without a URL.
    MissingUrl,
    /// A link was built without a text.
    MissingText,
    /// An image was asked to go into the footer without an alternative text
    /// to refer to it by.
    MissingFooterText,
    /// A list was built without items.
    EmptyList,
    /// An ordered list was built with checkbox items among its items.
    MixedContentKind,
}

} // verus!
