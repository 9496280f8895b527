//! Lists of elements, numbered or with dashes.

use crate::text::{decimal, push_decimal, strip_trailing_newlines, without_trailing_newlines};
use crate::types::element::{clone_elements, views, Element, ElementView};
use vstd::prelude::*;
use vstd::string::StringExecFns;

verus! {

/// The type of list.
#[derive(Clone, Copy, Debug, Eq, PartialEq)]
pub enum ListType {
    /// An ordered list prefixes all its items using incrementing numbers.
    Ordered,
    /// An unordered list prefixes all its items using a dash.
    Unordered,
}

impl Default for ListType {
    /// Returns the type of an unordered list.
    fn default() -> (typ: Self)
        ensures
            typ == ListType::Unordered,
    {
        ListType::Unordered
    }
}

/// An item inside a markdown list.
pub type ListItem = Element;

/// A markdown list.
///
/// A list made here may be empty; the list builder refuses to build one.
#[derive(Debug)]
pub struct List {
    pub items: Vec<ListItem>,
    pub typ: ListType,
}

/// What a list is: the views of its items, and its type.
pub struct ListView {
    pub items: Seq<ElementView>,
    pub typ: ListType,
}

impl View for List {
    type V = ListView;

    open spec fn view(&self) -> ListView
        decreases self,
    {
        ListView { items: views(self.items@), typ: self.typ }
    }
}

impl ListView {
    /// What stands before the item at position `i`, counted from zero: its
    /// number, counted from one, and a dot in an ordered list, a dash in an
    /// unordered one.
    pub open spec fn marker(self, i: int) -> Seq<char> {
        match self.typ {
            ListType::Ordered => decimal((i + 1) as nat).push('.'),
            ListType::Unordered => seq!['-'],
        }
    }

    /// The line of the item at position `i`: its marker, a space, the
    /// rendered item without the line feeds at its end, and a line feed.
    pub open spec fn line(self, i: int) -> Seq<char>
        decreases self, 0nat,
    {
        if 0 <= i < self.items.len() {
            self.marker(i) + seq![' '] + without_trailing_newlines(self.items[i].rendered())
                + seq!['\n']
        } else {
            Seq::empty()
        }
    }

    /// The lines of all items, in the order of the items.
    pub open spec fn lines(self) -> Seq<Seq<char>>
        decreases self, 1nat,
    {
        Seq::new(self.items.len(), |i: int| self.line(i))
    }

    /// The text of the rendered list: its lines, one after the other.
    pub open spec fn rendered(self) -> Seq<char>
        decreases self, 2nat,
    {
        self.lines().flatten()
    }
}

impl List {
    /// Creates a new default `List`.
    ///
    /// The list will be unordered.
    pub fn new() -> (list: Self)
        ensures
            list@ == (ListView { items: Seq::empty(), typ: ListType::Unordered }),
    {
        List::unordered()
    }

    /// Creates a new empty ordered `List`.
    pub fn ordered() -> (list: Self)
        ensures
            list@ == (ListView { items: Seq::empty(), typ: ListType::Ordered }),
    {
        let list = List::ordered_with(Vec::new());
        assert(list@.items =~= Seq::empty());
        list
    }

    /// Creates a new empty unordered `List`.
    pub fn unordered() -> (list: Self)
        ensures
            list@ == (ListView { items: Seq::empty(), typ: ListType::Unordered }),
    {
        let list = List::unordered_with(Vec::new());
        assert(list@.items =~= Seq::empty());
        list
    }

    /// Creates a new ordered `List` with the given items.
    pub fn ordered_with(items: Vec<ListItem>) -> (list: Self)
        ensures
            list@ == (ListView { items: views(items@), typ: ListType::Ordered }),
    {
        List { items, typ: ListType::Ordered }
    }

    /// Creates a new unordered `List` with the given items.
    pub fn unordered_with(items: Vec<ListItem>) -> (list: Self)
        ensures
            list@ == (ListView { items: views(items@), typ: ListType::Unordered }),
    {
        List { items, typ: ListType::Unordered }
    }

    /// Renders the list.
    pub fn render(&self) -> (out: String)
        ensures
            out@ == self@.rendered(),
        decreases self,
    {
        let ghost lines = self@.lines();
        let mut out = String::new();
        let mut i: usize = 0;
        while i < self.items.len()
            invariant
                i <= self.items.len(),
                lines == self@.lines(),
                out@ == lines.take(i as int).flatten(),
            decreases self.items.len() - i,
        {
            match self.typ {
                ListType::Ordered => {
                    push_decimal(&mut out, i + 1);
                    out.push('.');
                },
                ListType::Unordered => {
                    out.push('-');
                },
            }
            out.push(' ');
            let item = self.items[i].render();
            let body = strip_trailing_newlines(item.as_str());
            out.append(body.as_str());
            out.push('\n');
            proof {
                assert(lines.take(i + 1) =~= lines.take(i as int).push(lines[i as int]));
                lines.take(i as int).lemma_flatten_push(lines[i as int]);
            }
            i += 1;
        }
        assert(lines.take(i as int) =~= lines);
        out
    }
}

impl Default for List {
    /// Returns the empty unordered list.
    fn default() -> (list: Self)
        ensures
            list@ == (ListView { items: Seq::empty(), typ: ListType::Unordered }),
    {
        List::new()
    }
}

/// An ordered list numbers its items from one, in their order and without
/// gaps: it renders to one line for each item, and the line of the item at
/// position `i`, counted from zero, begins with the number `i + 1`, a dot and
/// a space.
pub proof fn lemma_ordered_list_numbers_its_items(items: Seq<ElementView>)
    ensures
        ({
            let list = ListView { items, typ: ListType::Ordered };
            &&& list.rendered() == list.lines().flatten()
            &&& list.lines().len() == items.len()
            &&& forall|i: int|
                0 <= i < items.len() ==> #[trigger] list.lines()[i] == decimal((i + 1) as nat)
                    + seq!['.', ' '] + without_trailing_newlines(items[i].rendered()) + seq!['\n']
        }),
{
}

/// An unordered list marks every item with a dash, however many items there
/// are and whatever they hold: it renders to one line for each item, and
/// each line begins with a dash and a space.
pub proof fn lemma_unordered_list_marks_with_dashes(items: Seq<ElementView>)
    ensures
        ({
            let list = ListView { items, typ: ListType::Unordered };
            &&& list.rendered() == list.lines().flatten()
            &&& list.lines().len() == items.len()
            &&& forall|i: int|
                0 <= i < items.len() ==> #[trigger] list.lines()[i] == seq!['-', ' ']
                    + without_trailing_newlines(items[i].rendered()) + seq!['\n']
        }),
{
}

impl Clone for List {
    /// Copies the list with all its items.
    fn clone(&self) -> (copy: Self)
        ensures
            copy@ == self@,
        decreases self,
    {
        List { items: clone_elements(&self.items), typ: self.typ }
    }
}

} // verus!
