//! Build Markdown documents from structured elements.
//!
//! A [`Markdown`] document owns an ordered sequence of [`Element`]s and a
//! separate sequence of footer references. Every element renders itself to
//! text; the text of each kind of element is fixed by a specification function
//! on the element's view, and every `render` is proved to produce it.
//!
//! Values are checked when they are made: a constructor or a builder that is
//! given something it cannot accept returns a [`ValidationError`], and
//! rendering a value that exists never fails.

pub mod builders;
pub mod error;
pub mod text;
pub mod transforms;
pub mod types;

pub use crate::builders::image::ImageBuilder;
pub use crate::builders::link::LinkBuilder;
pub use crate::builders::list::ListBuilder;
pub use crate::error::ValidationError;
pub use crate::transforms::{BlockQuote, Bold, CodeBlock, Inline, Italic, Strikethrough};
pub use crate::types::checkbox::Checkbox;
pub use crate::types::checkmark::Checkmark;
pub use crate::types::element::Element;
pub use crate::types::header::{Header, HeaderLevel};
pub use crate::types::image::Image;
pub use crate::types::link::Link;
pub use crate::types::list::{List, ListItem, ListType};
pub use crate::types::markdown::Markdown;
pub use crate::types::paragraph::Paragraph;
