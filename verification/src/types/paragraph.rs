//! Paragraphs: running text, wrapped word by word.

use crate::text::{
    byte_len, joined, lemma_joined_pieces, lemma_joined_utf8_len, lemma_pieces_nonempty,
    lemma_total_utf8_len_take, pieces, split, total_utf8_len, utf8_len,
};
use vstd::prelude::*;
use vstd::string::StringExecFns;

verus! {

/// The number of bytes of words that a line takes before the next word is
/// moved to a new line.
pub const LINE_WIDTH: usize = 80;

/// A markdown paragraph.
///
/// A paragraph is a continuous text that is visually separated from its
/// surrounding markdown elements. It is wrapped at `LINE_WIDTH` when rendered.
#[derive(Debug)]
pub struct Paragraph {
    /// The text inside the paragraph.
    pub text: String,
}

/// What a paragraph is: its text.
pub struct ParagraphView {
    pub text: Seq<char>,
}

impl View for Paragraph {
    type V = ParagraphView;

    open spec fn view(&self) -> ParagraphView {
        ParagraphView { text: self.text@ }
    }
}

/// The layout of `words` from word `i` on, when the words already on the
/// current line take `count` bytes.
///
/// A word that would bring the line over `LINE_WIDTH` starts a new line and
/// is the first to count on it; any other word follows a single space, except
/// for the very first word of the text. Separators do not count, and a word
/// is never broken, so a line can be longer than `LINE_WIDTH`.
pub open spec fn wrapped_from(words: Seq<Seq<char>>, i: int, count: nat) -> Seq<char>
    decreases words.len() - i,
{
    if 0 <= i < words.len() {
        let width = utf8_len(words[i]);
        if count + width > LINE_WIDTH {
            seq!['\n'] + words[i] + wrapped_from(words, i + 1, width)
        } else if i == 0 {
            words[i] + wrapped_from(words, i + 1, count + width)
        } else {
            seq![' '] + words[i] + wrapped_from(words, i + 1, count + width)
        }
    } else {
        Seq::empty()
    }
}

impl ParagraphView {
    /// The words of the paragraph: the pieces of its text between single
    /// spaces.
    pub open spec fn words(self) -> Seq<Seq<char>> {
        pieces(self.text, ' ')
    }

    /// The text of the rendered paragraph: its words laid out greedily,
    /// followed by one line feed.
    pub open spec fn rendered(self) -> Seq<char> {
        wrapped_from(self.words(), 0, 0) + seq!['\n']
    }
}

/// While all words together fit on one line, the layout from any word on is
/// the rest of the words joined by single spaces.
proof fn lemma_wrapped_unbroken(words: Seq<Seq<char>>, i: int)
    requires
        0 <= i <= words.len(),
        total_utf8_len(words) <= LINE_WIDTH,
    ensures
        joined(words.take(i), seq![' ']) + wrapped_from(words, i, total_utf8_len(words.take(i)))
            == joined(words, seq![' ']),
    decreases words.len() - i,
{
    if i == words.len() {
        assert(words.take(i) =~= words);
    } else {
        assert(words.take(i + 1).drop_last() =~= words.take(i));
        lemma_total_utf8_len_take(words, i + 1);
        lemma_wrapped_unbroken(words, i + 1);
    }
}

/// A text that takes no more than `LINE_WIDTH` bytes is rendered as it is,
/// followed by a line feed: wrapping leaves it alone.
pub proof fn lemma_short_text_is_kept(text: Seq<char>)
    requires
        utf8_len(text) <= LINE_WIDTH,
    ensures
        (ParagraphView { text }).rendered() == text + seq!['\n'],
{
    let words = pieces(text, ' ');
    lemma_joined_pieces(text, ' ');
    lemma_joined_utf8_len(words, seq![' ']);
    lemma_wrapped_unbroken(words, 0);
}

/// From any word on, the layout ends as the last word does.
proof fn lemma_wrapped_ends_with_last_word(words: Seq<Seq<char>>, i: int, count: nat)
    requires
        0 <= i < words.len(),
        words.last().len() > 0,
    ensures
        wrapped_from(words, i, count).len() > 0,
        wrapped_from(words, i, count).last() == words.last().last(),
    decreases words.len() - i,
{
    let width = utf8_len(words[i]);
    let next = if count + width > LINE_WIDTH {
        width
    } else {
        count + width
    };
    let rest = wrapped_from(words, i + 1, next);
    if i + 1 < words.len() {
        lemma_wrapped_ends_with_last_word(words, i + 1, next);
    } else {
        assert(rest.len() == 0);
    }
    assert(wrapped_from(words, i, count) == seq!['\n'] + words[i] + rest || wrapped_from(
        words,
        i,
        count,
    ) == words[i] + rest || wrapped_from(words, i, count) == seq![' '] + words[i] + rest);
}

/// A rendered paragraph ends in a line feed, and what stands before it is
/// the last character of the text, unless that is a space: the paragraph
/// ends in exactly one line feed where its text does not end in one.
pub proof fn lemma_paragraph_ends_in_line_feed(text: Seq<char>)
    requires
        text.len() > 0,
        text.last() != ' ',
    ensures
        ({
            let out = (ParagraphView { text }).rendered();
            &&& out.len() >= 2
            &&& out.last() == '\n'
            &&& out[out.len() - 2] == text.last()
        }),
{
    let words = pieces(text, ' ');
    lemma_pieces_nonempty(text.drop_last(), ' ');
    lemma_wrapped_ends_with_last_word(words, 0, 0);
}

impl Paragraph {
    /// Creates a new paragraph with the given text.
    pub fn from(text: &str) -> (paragraph: Self)
        ensures
            paragraph@ == (ParagraphView { text: text@ }),
    {
        Paragraph { text: String::from_str(text) }
    }

    /// Renders the paragraph: its words, wrapped, and a line feed.
    pub fn render(&self) -> (out: String)
        ensures
            out@ == self@.rendered(),
    {
        let words = split(self.text.as_str(), ' ');
        let ghost all = self@.words();
        let mut out = String::new();
        let mut count: usize = 0;
        let mut i: usize = 0;
        while i < words.len()
            invariant
                i <= words.len(),
                words.deep_view() == all,
                out@ + wrapped_from(all, i as int, count as nat) == wrapped_from(all, 0, 0),
            decreases words.len() - i,
        {
            let word = words[i].as_str();
            let width = byte_len(word);
            if count.saturating_add(width) > LINE_WIDTH {
                out.push('\n');
                count = width;
            } else {
                if i > 0 {
                    out.push(' ');
                }
                count = count + width;
            }
            out.append(word);
            i += 1;
        }
        out.push('\n');
        out
    }
}

impl Clone for Paragraph {
    /// Copies the paragraph.
    fn clone(&self) -> (copy: Self)
        ensures
            copy@ == self@,
    {
        Paragraph { text: self.text.clone() }
    }
}

} // verus!
