//! Builders for the elements that have more than one part.
//!
//! A builder collects the parts one call at a time, each call handing the
//! builder back, and checks them when the value is asked for: a part that is
//! missing is an error, never a silent default.

pub mod image;
pub mod link;
pub mod list;
