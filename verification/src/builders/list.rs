//! The builder of lists.

use crate::error::ValidationError;
use crate::types::checkbox::{Checkbox, CheckboxView};
use crate::types::element::{
    clone_elements, lemma_views_push, views, Element, ElementView,
};
use crate::types::list::{List, ListItem, ListType, ListView};
use vstd::prelude::*;

verus! {

/// Collects the items of a list.
#[derive(Debug)]
pub struct ListBuilder {
    items: Vec<ListItem>,
}

impl View for ListBuilder {
    type V = Seq<ElementView>;

    /// The items appended so far, in their order.
    closed spec fn view(&self) -> Seq<ElementView> {
        views(self.items@)
    }
}

/// Whether a checkbox or a checkmark item is among `items`.
pub open spec fn has_check_items(items: Seq<ElementView>) -> bool {
    exists|i: int| 0 <= i < items.len() && (#[trigger] items[i]).is_check_item()
}

/// What building an ordered list of `items` gives. A list needs an item, and
/// an ordered list takes no checkbox items: they belong in unordered lists.
pub open spec fn ordered_list(items: Seq<ElementView>) -> Result<ListView, ValidationError> {
    if items.len() == 0 {
        Err(ValidationError::EmptyList)
    } else if has_check_items(items) {
        Err(ValidationError::MixedContentKind)
    } else {
        Ok(ListView { items, typ: ListType::Ordered })
    }
}

/// What building an unordered list of `items` gives. A list needs an item.
pub open spec fn unordered_list(items: Seq<ElementView>) -> Result<ListView, ValidationError> {
    if items.len() == 0 {
        Err(ValidationError::EmptyList)
    } else {
        Ok(ListView { items, typ: ListType::Unordered })
    }
}

/// Whether a checkbox or a checkmark item is among `items`.
fn holds_check_items(items: &Vec<ListItem>) -> (found: bool)
    ensures
        found == has_check_items(views(items@)),
{
    let mut i: usize = 0;
    while i < items.len()
        invariant
            i <= items.len(),
            forall|j: int| 0 <= j < i ==> !(#[trigger] views(items@)[j]).is_check_item(),
        decreases items.len() - i,
    {
        if items[i].is_check_item() {
            assert(views(items@)[i as int].is_check_item());
            return true;
        }
        i += 1;
    }
    false
}

impl ListBuilder {
    /// Creates a builder without items.
    pub fn new() -> (builder: Self)
        ensures
            builder@ == Seq::<ElementView>::empty(),
    {
        ListBuilder { items: Vec::new() }
    }

    /// Appends an item.
    pub fn append(self, item: ListItem) -> (builder: Self)
        ensures
            builder@ == self@.push(item@),
    {
        let mut builder = self;
        proof {
            lemma_views_push(builder.items@, item);
        }
        builder.items.push(item);
        builder
    }

    /// Appends a checkbox item with the given text and state.
    pub fn checkbox(self, item: &str, checked: bool) -> (builder: Self)
        ensures
            builder@ == self@.push(ElementView::Checkbox(CheckboxView { text: item@, checked })),
    {
        self.append(Element::Checkbox(Checkbox::from(item, checked)))
    }

    /// Builds an ordered list of the items, or says why there is none.
    pub fn ordered(self) -> (made: Result<List, ValidationError>)
        ensures
            ordered_list(self@) is Ok ==> made is Ok && made->Ok_0@ == ordered_list(self@)->Ok_0,
            ordered_list(self@) is Err ==> made is Err && made->Err_0 == ordered_list(
                self@,
            )->Err_0,
    {
        if self.items.len() == 0 {
            Err(ValidationError::EmptyList)
        } else if holds_check_items(&self.items) {
            Err(ValidationError::MixedContentKind)
        } else {
            Ok(List::ordered_with(self.items))
        }
    }

    /// Builds an unordered list of the items, or says why there is none.
    pub fn unordered(self) -> (made: Result<List, ValidationError>)
        ensures
            unordered_list(self@) is Ok ==> made is Ok && made->Ok_0@ == unordered_list(
                self@,
            )->Ok_0,
            unordered_list(self@) is Err ==> made is Err && made->Err_0 == unordered_list(
                self@,
            )->Err_0,
    {
        if self.items.len() == 0 {
            Err(ValidationError::EmptyList)
        } else {
            Ok(List::unordered_with(self.items))
        }
    }
}

impl Default for ListBuilder {
    /// Returns a builder without items.
    fn default() -> (builder: Self)
        ensures
            builder@ == Seq::<ElementView>::empty(),
    {
        ListBuilder::new()
    }
}

impl List {
    /// Creates a builder of lists without items.
    pub fn builder() -> (builder: ListBuilder)
        ensures
            builder@ == Seq::<ElementView>::empty(),
    {
        ListBuilder::new()
    }
}

impl Clone for ListBuilder {
    /// Copies the builder with all its items.
    fn clone(&self) -> (copy: Self)
        ensures
            copy@ == self@,
    {
        ListBuilder { items: clone_elements(&self.items) }
    }
}

} // verus!
