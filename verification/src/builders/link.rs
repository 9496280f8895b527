//! The builder of links.

use crate::error::ValidationError;
use crate::types::link::{Link, LinkView};
use vstd::prelude::*;
use vstd::string::StringExecFns;

verus! {

/// Collects the parts of a link.
#[derive(Clone, Debug, Eq, PartialEq)]
pub struct LinkBuilder {
    text: Option<String>,
    url: Option<String>,
    footer: bool,
    inlined: bool,
}

/// What a link builder holds: the parts set so far.
pub struct LinkBuilderView {
    pub text: Option<Seq<char>>,
    pub url: Option<Seq<char>>,
    pub footer: bool,
    pub inlined: bool,
}

impl View for LinkBuilder {
    type V = LinkBuilderView;

    closed spec fn view(&self) -> LinkBuilderView {
        LinkBuilderView {
            text: match self.text {
                Some(text) => Some(text@),
                None => None,
            },
            url: match self.url {
                Some(url) => Some(url@),
                None => None,
            },
            footer: self.footer,
            inlined: self.inlined,
        }
    }
}

impl LinkBuilderView {
    /// The builder with nothing set.
    pub open spec fn empty() -> LinkBuilderView {
        LinkBuilderView { text: None, url: None, footer: false, inlined: false }
    }

    /// What building gives. A link needs a url and a text, and the url is
    /// looked for first.
    pub open spec fn built(self) -> Result<LinkView, ValidationError> {
        match self.url {
            None => Err(ValidationError::MissingUrl),
            Some(url) => match self.text {
                None => Err(ValidationError::MissingText),
                Some(text) => Ok(
                    LinkView { url, text, footer: self.footer, inlined: self.inlined },
                ),
            },
        }
    }
}

impl LinkBuilder {
    /// Creates a builder with nothing set.
    pub fn new() -> (builder: Self)
        ensures
            builder@ == LinkBuilderView::empty(),
    {
        LinkBuilder { text: None, url: None, footer: false, inlined: false }
    }

    /// Sets the text of the link.
    pub fn text(self, text: &str) -> (builder: Self)
        ensures
            builder@ == (LinkBuilderView { text: Some(text@), ..self@ }),
    {
        let mut builder = self;
        builder.text = Some(String::from_str(text));
        builder
    }

    /// Sets the url of the link.
    pub fn url(self, url: &str) -> (builder: Self)
        ensures
            builder@ == (LinkBuilderView { url: Some(url@), ..self@ }),
    {
        let mut builder = self;
        builder.url = Some(String::from_str(url));
        builder
    }

    /// Leaves the url of the link to the footer.
    pub fn footer(self) -> (builder: Self)
        ensures
            builder@ == (LinkBuilderView { footer: true, ..self@ }),
    {
        self.set_footer(true)
    }

    /// Sets whether the url of the link is left to the footer.
    pub fn set_footer(self, value: bool) -> (builder: Self)
        ensures
            builder@ == (LinkBuilderView { footer: value, ..self@ }),
    {
        let mut builder = self;
        builder.footer = value;
        builder
    }

    /// Makes the link inlined: no line feed follows it.
    pub fn inlined(self) -> (builder: Self)
        ensures
            builder@ == (LinkBuilderView { inlined: true, ..self@ }),
    {
        self.set_inlined(true)
    }

    /// Sets whether the link is inlined.
    pub fn set_inlined(self, value: bool) -> (builder: Self)
        ensures
            builder@ == (LinkBuilderView { inlined: value, ..self@ }),
    {
        let mut builder = self;
        builder.inlined = value;
        builder
    }

    /// Builds the link, or says which part is missing.
    pub fn build(self) -> (made: Result<Link, ValidationError>)
        ensures
            self@.built() is Ok ==> made is Ok && made->Ok_0@ == self@.built()->Ok_0,
            self@.built() is Err ==> made is Err && made->Err_0 == self@.built()->Err_0,
    {
        match self.url {
            None => Err(ValidationError::MissingUrl),
            Some(url) => match self.text {
                None => Err(ValidationError::MissingText),
                Some(text) => Ok(Link { url, text, footer: self.footer, inlined: self.inlined }),
            },
        }
    }
}

impl Default for LinkBuilder {
    /// Returns a builder with nothing set.
    fn default() -> (builder: Self)
        ensures
            builder@ == LinkBuilderView::empty(),
    {
        LinkBuilder::new()
    }
}

impl Link {
    /// Creates a builder of links with nothing set.
    pub fn builder() -> (builder: LinkBuilder)
        ensures
            builder@ == LinkBuilderView::empty(),
    {
        LinkBuilder::new()
    }
}

} // verus!
