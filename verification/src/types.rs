//! The elements that a document is made of.

pub mod checkbox;
pub mod checkmark;
pub mod element;
pub mod header;
pub mod image;
pub mod link;
pub mod list;
pub mod markdown;
pub mod paragraph;
