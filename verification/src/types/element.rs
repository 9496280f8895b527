//! The closed set of things that a document or a list can hold.

use crate::types::checkbox::{Checkbox, CheckboxView};
use crate::types::checkmark::{Checkmark, CheckmarkView};
use crate::types::header::{Header, HeaderView};
use crate::types::image::{Image, ImageView};
use crate::types::link::{Link, LinkView};
use crate::types::list::{List, ListView};
use crate::types::paragraph::{Paragraph, ParagraphView};
use vstd::prelude::*;

verus! {

/// Anything that renders itself to markdown text.
///
/// A container owns its elements: an element is moved into a document or a
/// list and is held by nothing else.
#[derive(Debug)]
pub enum Element {
    /// Plain text, rendered as it is.
    Text(String),
    Header(Header),
    Paragraph(Paragraph),
    Checkbox(Checkbox),
    Checkmark(Checkmark),
    Link(Link),
    Image(Image),
    List(List),
}

/// What an element is: the view of the value that it holds.
pub enum ElementView {
    Text(Seq<char>),
    Header(HeaderView),
    Paragraph(ParagraphView),
    Checkbox(CheckboxView),
    Checkmark(CheckmarkView),
    Link(LinkView),
    Image(ImageView),
    List(ListView),
}

impl View for Element {
    type V = ElementView;

    open spec fn view(&self) -> ElementView
        decreases self,
    {
        match self {
            Element::Text(text) => ElementView::Text(text@),
            Element::Header(header) => ElementView::Header(header@),
            Element::Paragraph(paragraph) => ElementView::Paragraph(paragraph@),
            Element::Checkbox(item) => ElementView::Checkbox(item@),
            Element::Checkmark(item) => ElementView::Checkmark(item@),
            Element::Link(link) => ElementView::Link(link@),
            Element::Image(image) => ElementView::Image(image@),
            Element::List(list) => ElementView::List(list@),
        }
    }
}

/// The views of `elements`, in their order.
pub open spec fn views(elements: Seq<Element>) -> Seq<ElementView>
    decreases elements,
{
    Seq::new(
        elements.len(),
        |i: int|
            if 0 <= i < elements.len() {
                elements[i]@
            } else {
                arbitrary()
            },
    )
}

/// The views of a vector that grew by one element are the views from before
/// and the view of that element.
pub proof fn lemma_views_push(elements: Seq<Element>, element: Element)
    ensures
        views(elements.push(element)) == views(elements).push(element@),
{
}

impl ElementView {
    /// The text that the element renders to.
    pub open spec fn rendered(self) -> Seq<char>
        decreases self,
    {
        match self {
            ElementView::Text(text) => text,
            ElementView::Header(header) => header.rendered(),
            ElementView::Paragraph(paragraph) => paragraph.rendered(),
            ElementView::Checkbox(item) => item.rendered(),
            ElementView::Checkmark(item) => item.rendered(),
            ElementView::Link(link) => link.rendered(),
            ElementView::Image(image) => image.rendered(),
            ElementView::List(list) => list.rendered(),
        }
    }

    /// Whether the element is a checkbox or a checkmark item.
    pub open spec fn is_check_item(self) -> bool {
        self is Checkbox || self is Checkmark
    }
}

/// Copies `elements` with all that they hold.
pub fn clone_elements(elements: &Vec<Element>) -> (copies: Vec<Element>)
    ensures
        views(copies@) == views(elements@),
    decreases elements,
{
    let mut copies: Vec<Element> = Vec::new();
    let mut i: usize = 0;
    while i < elements.len()
        invariant
            i <= elements.len(),
            views(copies@) == views(elements@).take(i as int),
        decreases elements.len() - i,
    {
        let copy = elements[i].clone();
        proof {
            lemma_views_push(copies@, copy);
        }
        copies.push(copy);
        i += 1;
    }
    copies
}

impl Element {
    /// Renders the element.
    pub fn render(&self) -> (out: String)
        ensures
            out@ == self@.rendered(),
        decreases self,
    {
        match self {
            Element::Text(text) => text.clone(),
            Element::Header(header) => header.render(),
            Element::Paragraph(paragraph) => paragraph.render(),
            Element::Checkbox(item) => item.render(),
            Element::Checkmark(item) => item.render(),
            Element::Link(link) => link.render(),
            Element::Image(image) => image.render(),
            Element::List(list) => list.render(),
        }
    }

    /// Whether the element is a checkbox or a checkmark item.
    pub fn is_check_item(&self) -> (yes: bool)
        ensures
            yes == self@.is_check_item(),
    {
        match self {
            Element::Checkbox(_) => true,
            Element::Checkmark(_) => true,
            _ => false,
        }
    }
}

impl Clone for Element {
    /// Copies the element with all that it holds.
    fn clone(&self) -> (copy: Self)
        ensures
            copy@ == self@,
        decreases self,
    {
        match self {
            Element::Text(text) => Element::Text(text.clone()),
            Element::Header(header) => Element::Header(header.clone()),
            Element::Paragraph(paragraph) => Element::Paragraph(paragraph.clone()),
            Element::Checkbox(item) => Element::Checkbox(item.clone()),
            Element::Checkmark(item) => Element::Checkmark(item.clone()),
            Element::Link(link) => Element::Link(link.clone()),
            Element::Image(image) => Element::Image(image.clone()),
            Element::List(list) => Element::List(list.clone()),
        }
    }
}

} // verus!
