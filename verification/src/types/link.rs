//! Links, inline or by reference to the document's footer.

use crate::types::element::{Element, ElementView};
use vstd::prelude::*;
use vstd::string::StringExecFns;

verus! {

/// A markdown link.
#[derive(Debug)]
pub struct Link {
    /// The url of the link.
    pub url: String,
    /// The text of the link.
    pub text: String,
    /// Whether the `Link`'s url should be rendered as a footer.
    pub footer: bool,
    /// Whether the link should be inlined (no new line).
    pub inlined: bool,
}

/// What a link is: the values of its four fields.
pub struct LinkView {
    pub url: Seq<char>,
    pub text: Seq<char>,
    pub footer: bool,
    pub inlined: bool,
}

impl View for Link {
    type V = LinkView;

    open spec fn view(&self) -> LinkView {
        LinkView {
            url: self.url@,
            text: self.text@,
            footer: self.footer,
            inlined: self.inlined,
        }
    }
}

/// `text` between square brackets: the label that a reference and its
/// definition in the footer have in common.
pub open spec fn label(text: Seq<char>) -> Seq<char> {
    seq!['['] + text + seq![']']
}

/// The line that defines a reference: the label of `text`, a colon, a space
/// and the `url`, with no line feed.
pub open spec fn reference_definition(text: Seq<char>, url: Seq<char>) -> Seq<char> {
    label(text) + seq![':', ' '] + url
}

/// A link or an image where it stands in the text, with its url either
/// beside it in round brackets or left to the footer.
pub open spec fn reference(text: Seq<char>, url: Seq<char>, footer: bool) -> Seq<char> {
    if footer {
        label(text) + label(text)
    } else {
        label(text) + seq!['('] + url + seq![')']
    }
}

impl LinkView {
    /// The text of the rendered link. An inlined link ends without a line
    /// feed, any other with one.
    pub open spec fn rendered(self) -> Seq<char> {
        if self.inlined {
            reference(self.text, self.url, self.footer)
        } else {
            reference(self.text, self.url, self.footer) + seq!['\n']
        }
    }

    /// The element that defines this link's reference in a footer.
    pub open spec fn as_footer(self) -> ElementView {
        ElementView::Text(reference_definition(self.text, self.url))
    }
}

/// A link with its url in the footer refers to it by the very label under
/// which the footer defines it: the rendered link is that label twice, and
/// the rendered footer element begins with it.
pub proof fn lemma_link_reference_matches_footer(link: LinkView)
    requires
        link.footer,
    ensures
        ({
            let width = label(link.text).len() as int;
            let body = link.rendered();
            let definition = link.as_footer().rendered();
            &&& body.len() >= 2 * width
            &&& definition.len() >= width
            &&& body.subrange(0, width) == label(link.text)
            &&& body.subrange(width, 2 * width) == label(link.text)
            &&& definition.subrange(0, width) == label(link.text)
            &&& definition.subrange(width, definition.len() as int) == seq![':', ' '] + link.url
        }),
{
}

/// An inlined link that keeps its url beside it is rendered as its text in
/// square brackets and its url in round brackets, and nothing follows.
pub proof fn lemma_inlined_link_has_no_line_feed(url: Seq<char>, text: Seq<char>)
    ensures
        (LinkView { url, text, footer: false, inlined: true }).rendered() == seq!['['] + text
            + seq![']', '('] + url + seq![')'],
{
}

/// Appends a link or an image as it stands in the text.
pub fn push_reference(out: &mut String, text: &str, url: &str, footer: bool)
    ensures
        final(out)@ == old(out)@ + reference(text@, url@, footer),
{
    out.push('[');
    out.append(text);
    out.push(']');
    if footer {
        out.push('[');
        out.append(text);
        out.push(']');
    } else {
        out.push('(');
        out.append(url);
        out.push(')');
    }
}

/// The line that defines the reference `text` as `url`.
pub fn define_reference(text: &str, url: &str) -> (out: String)
    ensures
        out@ == reference_definition(text@, url@),
{
    let mut out = String::new();
    out.push('[');
    out.append(text);
    out.push(']');
    out.push(':');
    out.push(' ');
    out.append(url);
    out
}

impl Link {
    /// Creates a new default `Link`: no url, no text, neither in the footer
    /// nor inlined.
    pub fn new() -> (link: Self)
        ensures
            link@ == (LinkView {
                url: Seq::empty(),
                text: Seq::empty(),
                footer: false,
                inlined: false,
            }),
    {
        Link { url: String::new(), text: String::new(), footer: false, inlined: false }
    }

    /// Creates a new `Link` with the given values.
    pub fn from(url: &str, text: &str, footer: bool, inlined: bool) -> (link: Self)
        ensures
            link@ == (LinkView { url: url@, text: text@, footer, inlined }),
    {
        Link { url: String::from_str(url), text: String::from_str(text), footer, inlined }
    }

    /// The element that defines this link's reference in a footer.
    pub fn as_footer(&self) -> (footer: Element)
        ensures
            footer@ == self@.as_footer(),
    {
        Element::Text(define_reference(self.text.as_str(), self.url.as_str()))
    }

    /// Renders the link.
    pub fn render(&self) -> (out: String)
        ensures
            out@ == self@.rendered(),
    {
        let mut out = String::new();
        push_reference(&mut out, self.text.as_str(), self.url.as_str(), self.footer);
        if !self.inlined {
            out.push('\n');
        }
        out
    }
}

impl Default for Link {
    /// Returns the link with no url and no text that is neither in the footer
    /// nor inlined.
    fn default() -> (link: Self)
        ensures
            link@ == (LinkView {
                url: Seq::empty(),
                text: Seq::empty(),
                footer: false,
                inlined: false,
            }),
    {
        Link::new()
    }
}

impl Clone for Link {
    /// Copies the link.
    fn clone(&self) -> (copy: Self)
        ensures
            copy@ == self@,
    {
        Link {
            url: self.url.clone(),
            text: self.text.clone(),
            footer: self.footer,
            inlined: self.inlined,
        }
    }
}

} // verus!
