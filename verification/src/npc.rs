use vstd::prelude::*;
use crate::inventory_item::{InventoryItem, ItemView};

verus! {

/// A character who lives in a room: a name, one line to say, and the items
/// it carries.
#[derive(Debug, PartialEq, Eq)]
pub struct NPC {
    pub name: String,
    pub inventory: Vec<InventoryItem>,
    pub dialogue: String,
}

/// A character as contracts see it.
#[verifier::ext_equal]
pub struct NpcView {
    pub name: Seq<char>,
    pub inventory: Seq<ItemView>,
    pub dialogue: Seq<char>,
}

impl View for NPC {
    type V = NpcView;

    open spec fn view(&self) -> NpcView {
        NpcView {
            name: self.name@,
            inventory: self.inventory.deep_view(),
            dialogue: self.dialogue@,
        }
    }
}

impl NPC {
    /// A character called `name`, who carries `inventory` and says
    /// `dialogue`.
    pub fn new(name: String, inventory: Vec<InventoryItem>, dialogue: String) -> (npc: NPC)
        ensures
            npc@ == (NpcView {
                name: name@,
                inventory: inventory.deep_view(),
                dialogue: dialogue@,
            }),
    {
        NPC { name, inventory, dialogue }
    }

    /// The items that the character carries, in their order.
    pub fn inventory(&self) -> (items: &[InventoryItem])
        ensures
            items@ == self.inventory@,
    {
        self.inventory.as_slice()
    }

    /// The character's items, open to change: what the caller leaves in them
    /// is what the character carries afterwards, and nothing else changes.
    pub fn inventory_mut(&mut self) -> (items: &mut Vec<InventoryItem>)
        ensures
            *items == old(self).inventory,
            final(self).inventory == *final(items),
            final(self).name == old(self).name,
            final(self).dialogue == old(self).dialogue,
    {
        &mut self.inventory
    }
}

} // verus!
