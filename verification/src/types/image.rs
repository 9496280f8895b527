//! Images, inline or by reference to the document's footer.

use crate::types::element::{Element, ElementView};
use crate::types::link::{define_reference, push_reference, reference, reference_definition};
use vstd::prelude::*;
use vstd::string::StringExecFns;

verus! {

/// A markdown image.
#[derive(Debug)]
pub struct Image {
    /// Whether the image's link should be added as a footer reference.
    pub footer: bool,
    /// The text of the image.
    pub text: String,
    /// The url of the image.
    pub url: String,
}

/// What an image is: the values of its three fields.
pub struct ImageView {
    pub footer: bool,
    pub text: Seq<char>,
    pub url: Seq<char>,
}

impl View for Image {
    type V = ImageView;

    open spec fn view(&self) -> ImageView {
        ImageView { footer: self.footer, text: self.text@, url: self.url@ }
    }
}

impl ImageView {
    /// The text of the rendered image: an exclamation mark, the reference
    /// and a line feed.
    pub open spec fn rendered(self) -> Seq<char> {
        seq!['!'] + reference(self.text, self.url, self.footer) + seq!['\n']
    }

    /// The element that defines this image's reference in a footer.
    pub open spec fn as_footer(self) -> ElementView {
        ElementView::Text(reference_definition(self.text, self.url))
    }
}

/// An image without a text that keeps its url beside it is rendered as an
/// exclamation mark, empty square brackets, the url in round brackets and a
/// line feed.
pub proof fn lemma_image_with_url_only(url: Seq<char>)
    ensures
        (ImageView { footer: false, text: Seq::empty(), url }).rendered() == seq![
            '!',
            '[',
            ']',
            '(',
        ] + url + seq![')', '\n'],
{
}

impl Image {
    /// Creates a new default `Image`: no url, no text, not in the footer.
    pub fn new() -> (image: Self)
        ensures
            image@ == (ImageView { footer: false, text: Seq::empty(), url: Seq::empty() }),
    {
        Image { footer: false, text: String::new(), url: String::new() }
    }

    /// Creates a new `Image` with the given values.
    pub fn from(url: &str, text: &str, footer: bool) -> (image: Self)
        ensures
            image@ == (ImageView { footer, text: text@, url: url@ }),
    {
        Image { footer, text: String::from_str(text), url: String::from_str(url) }
    }

    /// The element that defines this image's reference in a footer.
    pub fn as_footer(&self) -> (footer: Element)
        ensures
            footer@ == self@.as_footer(),
    {
        Element::Text(define_reference(self.text.as_str(), self.url.as_str()))
    }

    /// Renders the image.
    pub fn render(&self) -> (out: String)
        ensures
            out@ == self@.rendered(),
    {
        let mut out = String::new();
        out.push('!');
        push_reference(&mut out, self.text.as_str(), self.url.as_str(), self.footer);
        out.push('\n');
        out
    }
}

impl Default for Image {
    /// Returns the image with no url and no text that is not in the footer.
    fn default() -> (image: Self)
        ensures
            image@ == (ImageView { footer: false, text: Seq::empty(), url: Seq::empty() }),
    {
        Image::new()
    }
}

impl Clone for Image {
    /// Copies the image.
    fn clone(&self) -> (copy: Self)
        ensures
            copy@ == self@,
    {
        Image { footer: self.footer, text: self.text.clone(), url: self.url.clone() }
    }
}

} // verus!
