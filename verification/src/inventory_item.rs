use vstd::prelude::*;
use crate::scan::{first_index, lemma_first_index, lemma_first_index_is};
use crate::text::same_text;

verus! {

/// Something that a room, a character or the player can hold: a stack of
/// `count` things under one name, with the text that using it gives.
#[derive(Debug, PartialEq, Eq)]
pub struct InventoryItem {
    pub count: u64,
    pub name: String,
    pub effects: String,
}

/// An item as contracts see it.
#[verifier::ext_equal]
pub struct ItemView {
    pub count: u64,
    pub name: Seq<char>,
    pub effects: Seq<char>,
}

impl View for InventoryItem {
    type V = ItemView;

    open spec fn view(&self) -> ItemView {
        ItemView { count: self.count, name: self.name@, effects: self.effects@ }
    }
}

impl DeepView for InventoryItem {
    type V = ItemView;

    open spec fn deep_view(&self) -> ItemView {
        self@
    }
}

impl InventoryItem {
    /// A stack of `count` things called `name`; using it shows `effects`.
    pub fn new(count: u64, name: String, effects: String) -> (item: InventoryItem)
        ensures
            item@ == (ItemView { count, name: name@, effects: effects@ }),
    {
        InventoryItem { count, name, effects }
    }
}

/// The text that formatting a list of items with `{:?}` gives.
pub uninterp spec fn items_debug_text(items: Seq<ItemView>) -> Seq<char>;

/// `format!` of std with `{:?}`, on a list of items: the list as the derived
/// `Debug` writes it. The text depends on nothing but the items' fields, and
/// is known here under the name `items_debug_text`.
#[verifier::external_body]
pub(crate) fn debug_items(items: &Vec<InventoryItem>) -> (text: String)
    ensures
        text@ == items_debug_text(items.deep_view()),
{
    format!("{:?}", items)
}

/// Where the first item called `name` stands in `items`; the length of
/// `items` when none is called so. Names are compared character by
/// character.
pub open spec fn position_of(items: Seq<ItemView>, name: Seq<char>) -> int {
    first_index(items, |item: ItemView| item.name == name)
}

/// Whether some item in `items` is called `name`.
pub open spec fn holds(items: Seq<ItemView>, name: Seq<char>) -> bool {
    position_of(items, name) < items.len()
}

/// The first item called `name`, if there is one.
pub open spec fn found(items: Seq<ItemView>, name: Seq<char>) -> Option<ItemView> {
    if holds(items, name) {
        Some(items[position_of(items, name)])
    } else {
        None
    }
}

/// `items` once the first item called `name` has left it: the others stay,
/// in their order. Without such an item, `items` unchanged.
pub open spec fn without(items: Seq<ItemView>, name: Seq<char>) -> Seq<ItemView> {
    if holds(items, name) {
        items.remove(position_of(items, name))
    } else {
        items
    }
}

/// Some item is called `name` exactly when `holds` says so, and the item
/// that `found` gives is the first of them.
pub proof fn lemma_position_of(items: Seq<ItemView>, name: Seq<char>)
    ensures
        0 <= position_of(items, name) <= items.len(),
        holds(items, name) <==> exists|i: int|
            0 <= i < items.len() && #[trigger] items[i].name == name,
        holds(items, name) ==> items[position_of(items, name)].name == name,
        forall|i: int| 0 <= i < position_of(items, name) ==> #[trigger] items[i].name != name,
{
    lemma_first_index(items, |item: ItemView| item.name == name);
}

/// Takes the first item called `name` out of `items` and hands it over; the
/// items behind it move up. Without such an item nothing changes.
pub fn take_item_by_name(items: &mut Vec<InventoryItem>, name: &str) -> (taken: Option<
    InventoryItem,
>)
    ensures
        taken.deep_view() == found(old(items).deep_view(), name@),
        final(items).deep_view() == without(old(items).deep_view(), name@),
        match taken {
            Some(item) => {
                let at = position_of(old(items).deep_view(), name@);
                &&& at < old(items)@.len()
                &&& item == old(items)@[at]
                &&& final(items)@ == old(items)@.remove(at)
            },
            None => final(items)@ == old(items)@,
        },
{
    let ghost views = items.deep_view();
    let n = items.len();
    let mut i: usize = 0;
    while i < n && !same_text(items[i].name.as_str(), name)
        invariant
            i <= n,
            n == items@.len(),
            views == items.deep_view(),
            forall|j: int| 0 <= j < i ==> #[trigger] views[j].name != name@,
        decreases n - i,
    {
        i += 1;
    }
    proof {
        lemma_first_index_is(views, |item: ItemView| item.name == name@, i as int);
    }
    if i < n {
        Some(items.remove(i))
    } else {
        None
    }
}

} // verus!
