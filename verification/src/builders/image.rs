//! The builder of images.

use crate::error::ValidationError;
use crate::types::image::{Image, ImageView};
use vstd::prelude::*;
use vstd::string::StringExecFns;

verus! {

/// Collects the parts of an image.
#[derive(Clone, Debug, Eq, PartialEq)]
pub struct ImageBuilder {
    text: Option<String>,
    url: Option<String>,
    footer: bool,
}

/// What an image builder holds: the parts set so far.
pub struct ImageBuilderView {
    pub text: Option<Seq<char>>,
    pub url: Option<Seq<char>>,
    pub footer: bool,
}

impl View for ImageBuilder {
    type V = ImageBuilderView;

    closed spec fn view(&self) -> ImageBuilderView {
        ImageBuilderView {
            text: match self.text {
                Some(text) => Some(text@),
                None => None,
            },
            url: match self.url {
                Some(url) => Some(url@),
                None => None,
            },
            footer: self.footer,
        }
    }
}

impl ImageBuilderView {
    /// What building gives. An image needs a url. One that leaves its url to
    /// the footer needs a text as well, since the text is what refers to the
    /// footer; any other image without a text has the empty text.
    pub open spec fn built(self) -> Result<ImageView, ValidationError> {
        match self.url {
            None => Err(ValidationError::MissingUrl),
            Some(url) => match self.text {
                None => if self.footer {
                    Err(ValidationError::MissingFooterText)
                } else {
                    Ok(ImageView { footer: false, text: Seq::empty(), url })
                },
                Some(text) => Ok(ImageView { footer: self.footer, text, url }),
            },
        }
    }
}

impl ImageBuilder {
    /// Creates a builder with nothing set.
    pub fn new() -> (builder: Self)
        ensures
            builder@ == (ImageBuilderView { text: None, url: None, footer: false }),
    {
        ImageBuilder { text: None, url: None, footer: false }
    }

    /// Leaves the url of the image to the footer.
    pub fn footer(self) -> (builder: Self)
        ensures
            builder@ == (ImageBuilderView { footer: true, ..self@ }),
    {
        self.set_footer(true)
    }

    /// Sets whether the url of the image is left to the footer.
    pub fn set_footer(self, value: bool) -> (builder: Self)
        ensures
            builder@ == (ImageBuilderView { footer: value, ..self@ }),
    {
        let mut builder = self;
        builder.footer = value;
        builder
    }

    /// Sets the alternative text of the image.
    pub fn text(self, text: &str) -> (builder: Self)
        ensures
            builder@ == (ImageBuilderView { text: Some(text@), ..self@ }),
    {
        let mut builder = self;
        builder.text = Some(String::from_str(text));
        builder
    }

    /// Sets the url of the image.
    pub fn url(self, url: &str) -> (builder: Self)
        ensures
            builder@ == (ImageBuilderView { url: Some(url@), ..self@ }),
    {
        let mut builder = self;
        builder.url = Some(String::from_str(url));
        builder
    }

    /// Builds the image, or says which part is missing.
    pub fn build(self) -> (made: Result<Image, ValidationError>)
        ensures
            self@.built() is Ok ==> made is Ok && made->Ok_0@ == self@.built()->Ok_0,
            self@.built() is Err ==> made is Err && made->Err_0 == self@.built()->Err_0,
    {
        match self.url {
            None => Err(ValidationError::MissingUrl),
            Some(url) => match self.text {
                None => if self.footer {
                    Err(ValidationError::MissingFooterText)
                } else {
                    Ok(Image { footer: false, text: String::new(), url })
                },
                Some(text) => Ok(Image { footer: self.footer, text, url }),
            },
        }
    }
}

impl Default for ImageBuilder {
    /// Returns a builder with nothing set.
    fn default() -> (builder: Self)
        ensures
            builder@ == (ImageBuilderView { text: None, url: None, footer: false }),
    {
        ImageBuilder::new()
    }
}

impl Image {
    /// Creates a builder of images with nothing set.
    pub fn builder() -> (builder: ImageBuilder)
        ensures
            builder@ == (ImageBuilderView { text: None, url: None, footer: false }),
    {
        ImageBuilder::new()
    }
}

} // verus!
