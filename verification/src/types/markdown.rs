//! The document: elements in the order in which they were added, and the
//! footer references that some of them brought along.

use crate::error::ValidationError;
use crate::text::joined;
use crate::types::element::{
    clone_elements, lemma_views_push, views, Element, ElementView,
};
use crate::types::header::{Header, HeaderView};
use crate::types::image::{Image, ImageView};
use crate::types::link::{label, Link, LinkView};
use crate::types::list::List;
use crate::types::paragraph::{Paragraph, ParagraphView};
use vstd::prelude::*;
use vstd::string::StringExecFns;

verus! {

/// A markdown document.
#[derive(Debug)]
pub struct Markdown {
    /// The markdown elements.
    pub elements: Vec<Element>,
    /// The markdown footer elements.
    pub footers: Vec<Element>,
}

/// What a document is: the views of its elements and of its footers, each in
/// the order in which they were added.
pub struct MarkdownView {
    pub elements: Seq<ElementView>,
    pub footers: Seq<ElementView>,
}

impl View for Markdown {
    type V = MarkdownView;

    open spec fn view(&self) -> MarkdownView {
        MarkdownView { elements: views(self.elements@), footers: views(self.footers@) }
    }
}

impl MarkdownView {
    /// The document without elements and without footers.
    pub open spec fn empty() -> MarkdownView {
        MarkdownView { elements: Seq::empty(), footers: Seq::empty() }
    }

    /// The document with `element` added behind its elements.
    pub open spec fn with_element(self, element: ElementView) -> MarkdownView {
        MarkdownView { elements: self.elements.push(element), footers: self.footers }
    }

    /// The document with `footer` added behind its footers.
    pub open spec fn with_footer(self, footer: ElementView) -> MarkdownView {
        MarkdownView { elements: self.elements, footers: self.footers.push(footer) }
    }

    /// The document with a header of the given text and level added.
    pub open spec fn with_header(self, text: Seq<char>, level: nat) -> MarkdownView {
        self.with_element(ElementView::Header(HeaderView { text, level }))
    }

    /// The document with `link` added. A link that leaves its url to the
    /// footer brings the definition of its reference along, once.
    pub open spec fn with_link(self, link: LinkView) -> MarkdownView {
        if link.footer {
            self.with_footer(link.as_footer()).with_element(ElementView::Link(link))
        } else {
            self.with_element(ElementView::Link(link))
        }
    }

    /// The document with `image` added. An image that leaves its url to the
    /// footer brings the definition of its reference along, once.
    pub open spec fn with_image(self, image: ImageView) -> MarkdownView {
        if image.footer {
            self.with_footer(image.as_footer()).with_element(ElementView::Image(image))
        } else {
            self.with_element(ElementView::Image(image))
        }
    }

    /// The rendered elements with a line feed between each two neighbours.
    /// As most elements end in a line feed themselves, this leaves a blank
    /// line between them, and none after the last.
    pub open spec fn body(self) -> Seq<char> {
        joined(self.elements.map_values(|element: ElementView| element.rendered()), seq!['\n'])
    }

    /// The footers, each rendered and followed by a line feed.
    pub open spec fn footer_lines(self) -> Seq<Seq<char>> {
        self.footers.map_values(|footer: ElementView| footer.rendered() + seq!['\n'])
    }

    /// What follows the body: nothing where there are no footers, else a
    /// line feed and the lines of the footers in their order.
    pub open spec fn footer_block(self) -> Seq<char> {
        if self.footers.len() == 0 {
            Seq::empty()
        } else {
            seq!['\n'] + self.footer_lines().flatten()
        }
    }

    /// The text of the rendered document: the body, then the footer block.
    pub open spec fn rendered(self) -> Seq<char> {
        self.body() + self.footer_block()
    }
}

/// The empty document renders to the empty text.
pub proof fn lemma_empty_document_renders_nothing()
    ensures
        MarkdownView::empty().rendered() == Seq::<char>::empty(),
{
}

/// A document that holds one link, which leaves its url to the footer,
/// renders to the link, a blank line and the definition of the link's label:
/// the label by which the link refers to the footer is, character for
/// character, the label that the footer defines.
pub proof fn lemma_footer_link_round_trip(link: LinkView)
    requires
        link.footer,
    ensures
        MarkdownView::empty().with_link(link).rendered() == link.rendered() + seq!['\n'] + label(
            link.text,
        ) + seq![':', ' '] + link.url + seq!['\n'],
{
    MarkdownView::empty().with_link(link).footer_lines().lemma_flatten_one_element();
}

impl Markdown {
    /// Creates a new, empty `Markdown` instance.
    pub fn new() -> (doc: Self)
        ensures
            doc@ == MarkdownView::empty(),
    {
        let doc = Markdown { elements: Vec::new(), footers: Vec::new() };
        assert(doc@.elements =~= Seq::empty());
        assert(doc@.footers =~= Seq::empty());
        doc
    }

    /// Creates a new `Markdown` instance with the given elements and footers.
    pub fn with(elements: Vec<Element>, footers: Vec<Element>) -> (doc: Self)
        ensures
            doc@ == (MarkdownView { elements: views(elements@), footers: views(footers@) }),
    {
        Markdown { elements, footers }
    }

    /// Adds any markdown element.
    pub fn add(&mut self, element: Element) -> (doc: &mut Self)
        ensures
            doc@ == old(self)@.with_element(element@),
            *final(self) == *final(doc),
    {
        proof {
            lemma_views_push(self.elements@, element);
        }
        self.elements.push(element);
        self
    }

    /// Adds a header to the document, or refuses a level that is not between
    /// one and six and leaves the document as it is.
    ///
    /// # Arguments
    ///
    /// - `text`: The header's text.
    /// - `level`: The header's level.
    pub fn header(&mut self, text: &str, level: usize) -> (made: Result<
        &mut Self,
        ValidationError,
    >)
        ensures
            1 <= level <= 6 ==> made is Ok && made->Ok_0@ == old(self)@.with_header(
                text@,
                level as nat,
            ) && *final(self) == *final(made->Ok_0),
            !(1 <= level <= 6) ==> made is Err && made->Err_0 == ValidationError::InvalidLevel
                && *final(self) == *old(self),
    {
        match Header::from(text, level) {
            Ok(header) => Ok(self.add(Element::Header(header))),
            Err(error) => Err(error),
        }
    }

    /// Adds a header with level 1 to the document.
    ///
    /// # Arguments
    ///
    /// - `text`: The header's text.
    pub fn h1(&mut self, text: &str) -> (doc: &mut Self)
        ensures
            doc@ == old(self)@.with_header(text@, 1),
            *final(self) == *final(doc),
    {
        self.add(Element::Header(Header::from(text, 1).unwrap()))
    }

    /// Adds a header with level 2 to the document.
    ///
    /// # Arguments
    ///
    /// - `text`: The header's text.
    pub fn h2(&mut self, text: &str) -> (doc: &mut Self)
        ensures
            doc@ == old(self)@.with_header(text@, 2),
            *final(self) == *final(doc),
    {
        self.add(Element::Header(Header::from(text, 2).unwrap()))
    }

    /// Adds a header with level 3 to the document.
    ///
    /// # Arguments
    ///
    /// - `text`: The header's text.
    pub fn h3(&mut self, text: &str) -> (doc: &mut Self)
        ensures
            doc@ == old(self)@.with_header(text@, 3),
            *final(self) == *final(doc),
    {
        self.add(Element::Header(Header::from(text, 3).unwrap()))
    }

    /// Adds a header with level 4 to the document.
    ///
    /// # Arguments
    ///
    /// - `text`: The header's text.
    pub fn h4(&mut self, text: &str) -> (doc: &mut Self)
        ensures
            doc@ == old(self)@.with_header(text@, 4),
            *final(self) == *final(doc),
    {
        self.add(Element::Header(Header::from(text, 4).unwrap()))
    }

    /// Adds a header with level 5 to the document.
    ///
    /// # Arguments
    ///
    /// - `text`: The header's text.
    pub fn h5(&mut self, text: &str) -> (doc: &mut Self)
        ensures
            doc@ == old(self)@.with_header(text@, 5),
            *final(self) == *final(doc),
    {
        self.add(Element::Header(Header::from(text, 5).unwrap()))
    }

    /// Adds a header with level 6 to the document.
    ///
    /// # Arguments
    ///
    /// - `text`: The header's text.
    pub fn h6(&mut self, text: &str) -> (doc: &mut Self)
        ensures
            doc@ == old(self)@.with_header(text@, 6),
            *final(self) == *final(doc),
    {
        self.add(Element::Header(Header::from(text, 6).unwrap()))
    }

    /// Adds a list to the document.
    ///
    /// # Arguments
    ///
    /// - `list`: The list instance to add.
    pub fn list(&mut self, list: List) -> (doc: &mut Self)
        ensures
            doc@ == old(self)@.with_element(ElementView::List(list@)),
            *final(self) == *final(doc),
    {
        self.add(Element::List(list))
    }

    /// Adds a link to the document.
    ///
    /// # Arguments
    ///
    /// - `link`: The link instance to add.
    ///
    /// # Note
    ///
    /// The associated footer element is added as well if the passed link is
    /// marked as footer.
    pub fn link(&mut self, link: Link) -> (doc: &mut Self)
        ensures
            doc@ == old(self)@.with_link(link@),
            *final(self) == *final(doc),
    {
        if link.footer {
            let footer = link.as_footer();
            proof {
                lemma_views_push(self.footers@, footer);
            }
            self.footers.push(footer);
        }
        self.add(Element::Link(link))
    }

    /// Adds an image to the document.
    ///
    /// # Arguments
    ///
    /// - `image`: The image instance to add.
    ///
    /// # Note
    ///
    /// The associated footer element is added as well if the passed image is
    /// marked as footer.
    pub fn image(&mut self, image: Image) -> (doc: &mut Self)
        ensures
            doc@ == old(self)@.with_image(image@),
            *final(self) == *final(doc),
    {
        if image.footer {
            let footer = image.as_footer();
            proof {
                lemma_views_push(self.footers@, footer);
            }
            self.footers.push(footer);
        }
        self.add(Element::Image(image))
    }

    /// Adds a paragraph to the document.
    ///
    /// # Arguments
    ///
    /// - `text`: The paragraph's text.
    pub fn paragraph(&mut self, text: &str) -> (doc: &mut Self)
        ensures
            doc@ == old(self)@.with_element(
                ElementView::Paragraph(ParagraphView { text: text@ }),
            ),
            *final(self) == *final(doc),
    {
        self.add(Element::Paragraph(Paragraph::from(text)))
    }

    /// Renders the markdown document to a `String`.
    ///
    /// The method renders each element in order, followed by each footer.
    /// It changes nothing, so a document can be rendered again and added to
    /// afterwards.
    pub fn render(&self) -> (out: String)
        ensures
            out@ == self@.rendered(),
    {
        let ghost texts = self@.elements.map_values(|element: ElementView| element.rendered());
        let ghost lines = self@.footer_lines();
        let mut out = String::new();
        let mut i: usize = 0;
        while i < self.elements.len()
            invariant
                i <= self.elements.len(),
                texts == self@.elements.map_values(|element: ElementView| element.rendered()),
                out@ == joined(texts.take(i as int), seq!['\n']),
            decreases self.elements.len() - i,
        {
            let text = self.elements[i].render();
            proof {
                assert(texts.take(i + 1).drop_last() =~= texts.take(i as int));
            }
            if i > 0 {
                out.push('\n');
            }
            out.append(text.as_str());
            i += 1;
        }
        assert(texts.take(i as int) =~= texts);
        if self.footers.len() > 0 {
            out.push('\n');
        }
        let ghost body = self@.body();
        let ghost gap: Seq<char> = if self.footers.len() > 0 {
            seq!['\n']
        } else {
            Seq::empty()
        };
        let mut j: usize = 0;
        while j < self.footers.len()
            invariant
                j <= self.footers.len(),
                lines == self@.footer_lines(),
                out@ == body + gap + lines.take(j as int).flatten(),
            decreases self.footers.len() - j,
        {
            let text = self.footers[j].render();
            out.append(text.as_str());
            out.push('\n');
            proof {
                assert(lines.take(j + 1) =~= lines.take(j as int).push(lines[j as int]));
                lines.take(j as int).lemma_flatten_push(lines[j as int]);
            }
            j += 1;
        }
        assert(lines.take(j as int) =~= lines);
        out
    }
}

impl Default for Markdown {
    /// Returns the empty document.
    fn default() -> (doc: Self)
        ensures
            doc@ == MarkdownView::empty(),
    {
        Markdown::new()
    }
}

impl Clone for Markdown {
    /// Copies the document with all its elements and footers.
    fn clone(&self) -> (copy: Self)
        ensures
            copy@ == self@,
    {
        Markdown {
            elements: clone_elements(&self.elements),
            footers: clone_elements(&self.footers),
        }
    }
}

} // verus!
