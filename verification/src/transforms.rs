//! Extension traits that turn a text into one of the inline or block forms
//! of markdown.
//!
//! The traits are implemented for `str`, so every string and string slice
//! has the methods:
//! - [block quotes](trait.BlockQuote.html)
//! - [bold](trait.Bold.html)
//! - [code blocks](trait.CodeBlock.html)
//! - [inline code](trait.Inline.html)
//! - [italic](trait.Italic.html)
//! - [strikethrough](trait.Strikethrough.html)

use crate::text::{join, joined, lines, split_lines};
use vstd::prelude::*;
use vstd::string::StringExecFns;

verus! {

/// `text` with `mark` before and behind it.
pub open spec fn surrounded(text: Seq<char>, mark: Seq<char>) -> Seq<char> {
    mark + text + mark
}

/// `line` as a block quote: behind a `>` and a space.
pub open spec fn quoted(line: Seq<char>) -> Seq<char> {
    seq!['>', ' '] + line
}

/// `text` as a block quote of as many lines as it has: each line quoted,
/// with a line feed between each two.
pub open spec fn quoted_lines(text: Seq<char>) -> Seq<char> {
    joined(lines(text).map_values(|line: Seq<char>| quoted(line)), seq!['\n'])
}

/// `code` between two fences of three backticks, the first followed by
/// `tag`, which names the language or is empty.
pub open spec fn fenced(code: Seq<char>, tag: Seq<char>) -> Seq<char> {
    seq!['`', '`', '`'] + tag + seq!['\n'] + code + seq!['\n', '`', '`', '`']
}

/// The name for what `str::to_lowercase` of the standard library returns
/// for a text. Nothing more is assumed of it.
pub uninterp spec fn lowercased(text: Seq<char>) -> Seq<char>;

/// Calls `str::to_lowercase` of the standard library, which maps each
/// character to its lowercase form by the rules of Unicode and depends on
/// nothing but the text. Assumed, not proved: the result is the value that
/// `lowercased` names.
#[verifier::external_body]
fn lowercase(text: &str) -> (out: String)
    ensures
        out@ == lowercased(text@),
{
    text.to_lowercase()
}

/// Puts `mark` before and behind `text`.
pub fn surround(text: &str, mark: &str) -> (out: String)
    ensures
        out@ == surrounded(text@, mark@),
{
    let mut out = String::from_str(mark);
    out.append(text);
    out.append(mark);
    out
}

/// Quotes one line.
pub fn quote(line: &str) -> (out: String)
    ensures
        out@ == quoted(line@),
{
    let mut out = String::new();
    out.push('>');
    out.push(' ');
    out.append(line);
    out
}

/// Puts `code` between two fences, the first followed by `tag`.
pub fn fence(code: &str, tag: &str) -> (out: String)
    ensures
        out@ == fenced(code@, tag@),
{
    let mut out = String::new();
    push_backticks(&mut out);
    out.append(tag);
    out.push('\n');
    out.append(code);
    out.push('\n');
    push_backticks(&mut out);
    out
}

/// Appends a fence of three backticks.
fn push_backticks(out: &mut String)
    ensures
        final(out)@ == old(out)@ + seq!['`', '`', '`'],
{
    out.push('`');
    out.push('`');
    out.push('`');
}

/// An extension trait for block quote transformation.
pub trait BlockQuote {
    /// The text as a block quote of one line.
    spec fn block_quote(&self) -> Seq<char>;

    /// The text as a block quote of as many lines as it has.
    spec fn block_quote_multi_line(&self) -> Seq<char>;

    /// Transforms the given text into a block quote.
    ///
    /// A text of several lines is quoted line by line by
    /// `to_block_quote_multi_line`.
    fn to_block_quote(&self) -> (out: String)
        ensures
            out@ == self.block_quote(),
    ;

    /// Transforms the given text into a multiline block quote.
    ///
    /// This method takes line feeds into account and splits the text at
    /// them, so that the quote spans over as many lines as the text.
    fn to_block_quote_multi_line(&self) -> (out: String)
        ensures
            out@ == self.block_quote_multi_line(),
    ;
}

impl BlockQuote for str {
    open spec fn block_quote(&self) -> Seq<char> {
        quoted(self@)
    }

    open spec fn block_quote_multi_line(&self) -> Seq<char> {
        quoted_lines(self@)
    }

    fn to_block_quote(&self) -> (out: String) {
        quote(self)
    }

    fn to_block_quote_multi_line(&self) -> (out: String) {
        let plain = split_lines(self);
        let ghost wanted = lines(self@).map_values(|line: Seq<char>| quoted(line));
        let mut quotes: Vec<String> = Vec::new();
        let mut i: usize = 0;
        while i < plain.len()
            invariant
                i <= plain.len(),
                plain.deep_view() == lines(self@),
                wanted == lines(self@).map_values(|line: Seq<char>| quoted(line)),
                quotes.deep_view() == wanted.take(i as int),
            decreases plain.len() - i,
        {
            let ghost before = quotes.deep_view();
            let line = quote(plain[i].as_str());
            quotes.push(line);
            assert(quotes.deep_view() =~= before.push(line@));
            i += 1;
        }
        proof {
            reveal_strlit("\n");
            assert("\n"@ =~= seq!['\n']);
            assert(wanted.take(i as int) =~= wanted);
        }
        join(&quotes, "\n")
    }
}

/// An extension trait for bold transformations.
pub trait Bold {
    /// The text in bold: between two pairs of asterisks.
    spec fn bold(&self) -> Seq<char>;

    /// Transforms the given text into its bold version.
    fn to_bold(&self) -> (out: String)
        ensures
            out@ == self.bold(),
    ;
}

impl Bold for str {
    open spec fn bold(&self) -> Seq<char> {
        surrounded(self@, seq!['*', '*'])
    }

    fn to_bold(&self) -> (out: String) {
        proof {
            reveal_strlit("**");
        }
        surround(self, "**")
    }
}

/// An extension trait for code block transformations.
pub trait CodeBlock {
    /// The text as a code block whose opening fence is followed by `tag`.
    spec fn code_block(&self, tag: Seq<char>) -> Seq<char>;

    /// Transforms the given text into a code block.
    fn to_code_block(&self) -> (out: String)
        ensures
            out@ == self.code_block(Seq::empty()),
    ;

    /// Transforms the given text into a code block, allowing to specify the
    /// language to use for highlighting. The language is written in
    /// lowercase.
    fn to_code_block_with_language(&self, language: &str) -> (out: String)
        ensures
            out@ == self.code_block(lowercased(language@)),
    ;
}

impl CodeBlock for str {
    open spec fn code_block(&self, tag: Seq<char>) -> Seq<char> {
        fenced(self@, tag)
    }

    fn to_code_block(&self) -> (out: String) {
        let tag = String::new();
        fence(self, tag.as_str())
    }

    fn to_code_block_with_language(&self, language: &str) -> (out: String) {
        let tag = lowercase(language);
        fence(self, tag.as_str())
    }
}

/// An extension trait for inline transformations.
pub trait Inline {
    /// The text as inline code: between two backticks.
    spec fn inline(&self) -> Seq<char>;

    /// Transforms the given text into an inline code block.
    fn to_inline(&self) -> (out: String)
        ensures
            out@ == self.inline(),
    ;
}

impl Inline for str {
    open spec fn inline(&self) -> Seq<char> {
        surrounded(self@, seq!['`'])
    }

    fn to_inline(&self) -> (out: String) {
        proof {
            reveal_strlit("`");
        }
        surround(self, "`")
    }
}

/// An extension trait for italic transformations.
pub trait Italic {
    /// The text in italic: between two asterisks.
    spec fn italic(&self) -> Seq<char>;

    /// Transforms the given text into its italic variant.
    fn to_italic(&self) -> (out: String)
        ensures
            out@ == self.italic(),
    ;
}

impl Italic for str {
    open spec fn italic(&self) -> Seq<char> {
        surrounded(self@, seq!['*'])
    }

    fn to_italic(&self) -> (out: String) {
        proof {
            reveal_strlit("*");
        }
        surround(self, "*")
    }
}

/// An extension trait for strikethrough transformations.
pub trait Strikethrough {
    /// The text struck through: between two pairs of tildes.
    spec fn strikethrough(&self) -> Seq<char>;

    /// Transforms the given text to be strikethrough.
    fn to_strikethrough(&self) -> (out: String)
        ensures
            out@ == self.strikethrough(),
    ;
}

impl Strikethrough for str {
    open spec fn strikethrough(&self) -> Seq<char> {
        surrounded(self@, seq!['~', '~'])
    }

    fn to_strikethrough(&self) -> (out: String) {
        proof {
            reveal_strlit("~~");
        }
        surround(self, "~~")
    }
}

} // verus!
