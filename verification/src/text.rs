//! Text as sequences of characters: the specification functions that the
//! element types are rendered by, and the executable routines proved against
//! them.

use vstd::prelude::*;
use vstd::string::StringExecFns;
use vstd::utf8::encode_utf8;

verus! {

/// Specification of `String::push` from the standard library, which vstd
/// leaves unspecified: the call appends the given character to the end of
/// the string and changes nothing else. Assumed, not proved.
pub assume_specification[ String::push ](text: &mut String, c: char)
    ensures
        final(text)@ == old(text)@.push(c),
;

/// `n` copies of `c`.
pub open spec fn repeated(c: char, n: nat) -> Seq<char> {
    Seq::new(n, |i: int| c)
}

/// The decimal digit for `d`, which is below ten.
pub open spec fn digit(d: nat) -> char
    recommends
        d < 10,
{
    if d == 0 {
        '0'
    } else if d == 1 {
        '1'
    } else if d == 2 {
        '2'
    } else if d == 3 {
        '3'
    } else if d == 4 {
        '4'
    } else if d == 5 {
        '5'
    } else if d == 6 {
        '6'
    } else if d == 7 {
        '7'
    } else if d == 8 {
        '8'
    } else {
        '9'
    }
}

/// `n` written in base ten, without leading zeros.
pub open spec fn decimal(n: nat) -> Seq<char>
    decreases n,
{
    if n < 10 {
        seq![digit(n)]
    } else {
        decimal(n / 10).push(digit(n % 10))
    }
}

/// `text` without the line feeds at its end.
pub open spec fn without_trailing_newlines(text: Seq<char>) -> Seq<char>
    decreases text.len(),
{
    if text.len() > 0 && text.last() == '\n' {
        without_trailing_newlines(text.drop_last())
    } else {
        text
    }
}

/// The pieces of `text` between the occurrences of `sep`. There is one piece
/// more than there are separators, so the empty text has one empty piece.
pub open spec fn pieces(text: Seq<char>, sep: char) -> Seq<Seq<char>>
    decreases text.len(),
{
    if text.len() == 0 {
        seq![Seq::empty()]
    } else {
        let before = pieces(text.drop_last(), sep);
        if text.last() == sep {
            before.push(Seq::empty())
        } else {
            before.drop_last().push(before.last().push(text.last()))
        }
    }
}

/// The `parts` in order, with `sep` between each two neighbours.
pub open spec fn joined(parts: Seq<Seq<char>>, sep: Seq<char>) -> Seq<char>
    decreases parts.len(),
{
    if parts.len() == 0 {
        Seq::empty()
    } else if parts.len() == 1 {
        parts[0]
    } else {
        joined(parts.drop_last(), sep) + sep + parts.last()
    }
}

/// `line` without the carriage return at its end, if it ends in one.
pub open spec fn without_trailing_return(line: Seq<char>) -> Seq<char> {
    if line.len() > 0 && line.last() == '\r' {
        line.drop_last()
    } else {
        line
    }
}

/// The lines of `text`. A line ends at a line feed, or at a carriage return
/// and a line feed that follows it; neither belongs to the line. What
/// follows the last line feed is a line of its own unless it is empty, and
/// keeps a carriage return at its end.
pub open spec fn lines(text: Seq<char>) -> Seq<Seq<char>> {
    let parts = pieces(text, '\n');
    let ended = parts.drop_last().map_values(|part: Seq<char>| without_trailing_return(part));
    if parts.last().len() == 0 {
        ended
    } else {
        ended.push(parts.last())
    }
}

/// The number of bytes that `text` takes in UTF-8.
pub open spec fn utf8_len(text: Seq<char>) -> nat {
    encode_utf8(text).len()
}

/// The sum of the UTF-8 lengths of the `parts`.
pub open spec fn total_utf8_len(parts: Seq<Seq<char>>) -> nat
    decreases parts.len(),
{
    if parts.len() == 0 {
        0
    } else {
        total_utf8_len(parts.drop_last()) + utf8_len(parts.last())
    }
}

/// The UTF-8 length of a concatenation is the sum of the lengths of its two
/// halves.
pub proof fn lemma_utf8_len_concat(a: Seq<char>, b: Seq<char>)
    ensures
        utf8_len(a + b) == utf8_len(a) + utf8_len(b),
    decreases a.len(),
{
    if a.len() > 0 {
        assert((a + b).drop_first() =~= a.drop_first() + b);
        lemma_utf8_len_concat(a.drop_first(), b);
    }
}

/// Splitting never gives an empty sequence of pieces.
pub proof fn lemma_pieces_nonempty(text: Seq<char>, sep: char)
    ensures
        pieces(text, sep).len() >= 1,
    decreases text.len(),
{
    if text.len() > 0 {
        lemma_pieces_nonempty(text.drop_last(), sep);
    }
}

/// Joining the pieces of a text with the separator that they were split at
/// gives the text back.
pub proof fn lemma_joined_pieces(text: Seq<char>, sep: char)
    ensures
        joined(pieces(text, sep), seq![sep]) == text,
    decreases text.len(),
{
    if text.len() > 0 {
        let before = pieces(text.drop_last(), sep);
        lemma_pieces_nonempty(text.drop_last(), sep);
        lemma_joined_pieces(text.drop_last(), sep);
        if text.last() == sep {
            assert(before.push(Seq::empty()).drop_last() =~= before);
        } else {
            let grown = before.last().push(text.last());
            assert(before.drop_last().push(grown).drop_last() =~= before.drop_last());
            assert(text.drop_last().push(text.last()) =~= text);
        }
    }
}

/// No piece of a text holds the separator that the text was split at.
pub proof fn lemma_pieces_hold_no_separator(text: Seq<char>, sep: char)
    ensures
        forall|i: int, j: int|
            0 <= i < pieces(text, sep).len() && 0 <= j < pieces(text, sep)[i].len()
                ==> pieces(text, sep)[i][j] != sep,
    decreases text.len(),
{
    if text.len() > 0 {
        lemma_pieces_nonempty(text.drop_last(), sep);
        lemma_pieces_hold_no_separator(text.drop_last(), sep);
    }
}

/// A joined text is at least as long, in UTF-8, as its parts together.
pub proof fn lemma_joined_utf8_len(parts: Seq<Seq<char>>, sep: Seq<char>)
    ensures
        total_utf8_len(parts) <= utf8_len(joined(parts, sep)),
    decreases parts.len(),
{
    if parts.len() == 1 {
        assert(total_utf8_len(parts.drop_last()) == 0);
    } else if parts.len() > 1 {
        lemma_joined_utf8_len(parts.drop_last(), sep);
        lemma_utf8_len_concat(joined(parts.drop_last(), sep), sep);
        lemma_utf8_len_concat(joined(parts.drop_last(), sep) + sep, parts.last());
    }
}

/// The first parts of a sequence are together no longer than all of them.
pub proof fn lemma_total_utf8_len_take(parts: Seq<Seq<char>>, n: int)
    requires
        0 <= n <= parts.len(),
    ensures
        total_utf8_len(parts.take(n)) <= total_utf8_len(parts),
    decreases parts.len(),
{
    if n == parts.len() {
        assert(parts.take(n) =~= parts);
    } else {
        assert(parts.drop_last().take(n) =~= parts.take(n));
        lemma_total_utf8_len_take(parts.drop_last(), n);
    }
}

/// Appends `n` copies of `c` to `out`.
pub fn push_repeated(out: &mut String, c: char, n: usize)
    ensures
        final(out)@ == old(out)@ + repeated(c, n as nat),
{
    let mut i: usize = 0;
    while i < n
        invariant
            i <= n,
            out@ == old(out)@ + repeated(c, i as nat),
        decreases n - i,
    {
        out.push(c);
        i += 1;
    }
}

/// The character of a decimal digit.
fn digit_char(d: usize) -> (c: char)
    requires
        d < 10,
    ensures
        c == digit(d as nat),
{
    if d == 0 {
        '0'
    } else if d == 1 {
        '1'
    } else if d == 2 {
        '2'
    } else if d == 3 {
        '3'
    } else if d == 4 {
        '4'
    } else if d == 5 {
        '5'
    } else if d == 6 {
        '6'
    } else if d == 7 {
        '7'
    } else if d == 8 {
        '8'
    } else {
        '9'
    }
}

/// Appends `n` in base ten to `out`.
pub fn push_decimal(out: &mut String, n: usize)
    ensures
        final(out)@ == old(out)@ + decimal(n as nat),
    decreases n,
{
    if n >= 10 {
        push_decimal(out, n / 10);
    }
    out.push(digit_char(n % 10));
}

/// The characters of `text`, in a vector.
pub fn chars_of(text: &str) -> (chars: Vec<char>)
    ensures
        chars@ == text@,
{
    let mut chars: Vec<char> = Vec::new();
    for c in it: text.chars()
        invariant
            it.seq() == text@,
            chars@ == text@.take(it.index() as int),
    {
        chars.push(c);
    }
    chars
}

/// The first `end` of the `chars`, as a string.
fn prefix_of(chars: &Vec<char>, end: usize) -> (out: String)
    requires
        end <= chars.len(),
    ensures
        out@ == chars@.take(end as int),
{
    let mut out = String::new();
    let mut i: usize = 0;
    while i < end
        invariant
            i <= end <= chars.len(),
            out@ == chars@.take(i as int),
        decreases end - i,
    {
        out.push(chars[i]);
        i += 1;
    }
    out
}

/// `text` without the line feeds at its end.
pub fn strip_trailing_newlines(text: &str) -> (out: String)
    ensures
        out@ == without_trailing_newlines(text@),
{
    let chars = chars_of(text);
    let mut end: usize = chars.len();
    assert(chars@.take(end as int) =~= chars@);
    while end > 0 && chars[end - 1] == '\n'
        invariant
            end <= chars.len(),
            without_trailing_newlines(chars@.take(end as int)) == without_trailing_newlines(
                chars@,
            ),
        decreases end,
    {
        assert(chars@.take(end as int).drop_last() =~= chars@.take(end - 1));
        end -= 1;
    }
    prefix_of(&chars, end)
}

/// `line` without the carriage return at its end, if it ends in one.
pub fn strip_trailing_return(line: &str) -> (out: String)
    ensures
        out@ == without_trailing_return(line@),
{
    let chars = chars_of(line);
    let len = chars.len();
    if len > 0 && chars[len - 1] == '\r' {
        prefix_of(&chars, len - 1)
    } else {
        prefix_of(&chars, len)
    }
}

/// Splits `text` at every occurrence of `sep`.
pub fn split(text: &str, sep: char) -> (parts: Vec<String>)
    ensures
        parts.deep_view() == pieces(text@, sep),
{
    let mut parts: Vec<String> = Vec::new();
    let mut current = String::new();
    for c in it: text.chars()
        invariant
            it.seq() == text@,
            parts.deep_view().push(current@) == pieces(text@.take(it.index() as int), sep),
    {
        let ghost seen = text@.take(it.index() as int);
        let ghost next = text@.take(it.index() + 1);
        assert(next.drop_last() =~= seen);
        if c == sep {
            parts.push(current);
            current = String::new();
        } else {
            current.push(c);
        }
    }
    parts.push(current);
    assert(text@.take(text@.len() as int) =~= text@);
    parts
}

/// Splits `text` into its lines.
pub fn split_lines(text: &str) -> (out: Vec<String>)
    ensures
        out.deep_view() == lines(text@),
{
    let parts = split(text, '\n');
    proof {
        lemma_pieces_nonempty(text@, '\n');
    }
    let ghost all = pieces(text@, '\n');
    let ghost ended = all.drop_last().map_values(|part: Seq<char>| without_trailing_return(part));
    let count = parts.len() - 1;
    let mut out: Vec<String> = Vec::new();
    let mut i: usize = 0;
    while i < count
        invariant
            i <= count,
            count + 1 == parts.len(),
            parts.deep_view() == all,
            ended == all.drop_last().map_values(|part: Seq<char>| without_trailing_return(part)),
            out.deep_view() == ended.take(i as int),
        decreases count - i,
    {
        let line = strip_trailing_return(parts[i].as_str());
        let ghost before = out.deep_view();
        out.push(line);
        assert(out.deep_view() =~= before.push(line@));
        i += 1;
    }
    assert(ended.take(count as int) =~= ended);
    let last = parts[count].as_str();
    if !last.is_empty() {
        out.push(String::from_str(last));
    }
    out
}

/// Joins the `parts` with `sep` between each two neighbours.
pub fn join(parts: &Vec<String>, sep: &str) -> (out: String)
    ensures
        out@ == joined(parts.deep_view(), sep@),
{
    let ghost all = parts.deep_view();
    let mut out = String::new();
    let mut i: usize = 0;
    while i < parts.len()
        invariant
            i <= parts.len(),
            all == parts.deep_view(),
            out@ == joined(all.take(i as int), sep@),
        decreases parts.len() - i,
    {
        assert(all.take(i + 1).drop_last() =~= all.take(i as int));
        if i > 0 {
            out.append(sep);
        }
        out.append(parts[i].as_str());
        i += 1;
    }
    assert(all.take(i as int) =~= all);
    out
}

/// The number of bytes that `text` takes in memory.
pub fn byte_len(text: &str) -> (len: usize)
    ensures
        len == utf8_len(text@),
{
    text.as_bytes().len()
}

} // verus!
