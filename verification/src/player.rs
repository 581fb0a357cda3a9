use vstd::prelude::*;
use vstd::string::*;
use crate::inventory_item::{debug_items, items_debug_text, InventoryItem, ItemView};
use crate::location::Location;

verus! {

/// The one who plays: a name, the cell they stand in, and what they carry.
#[derive(Debug, PartialEq, Eq)]
pub struct Player {
    pub name: String,
    pub inventory: Vec<InventoryItem>,
    pub location: Location,
}

/// The player as contracts see them.
#[verifier::ext_equal]
pub struct PlayerView {
    pub name: Seq<char>,
    pub inventory: Seq<ItemView>,
    pub location: Location,
}

impl View for Player {
    type V = PlayerView;

    open spec fn view(&self) -> PlayerView {
        PlayerView {
            name: self.name@,
            inventory: self.inventory.deep_view(),
            location: self.location,
        }
    }
}

impl PlayerView {
    /// The line that shows what the player carries.
    pub open spec fn inventory_text(self) -> Seq<char> {
        if self.inventory.len() == 0 {
            "Oops! You don't have any items. Why not take a look around?"@
        } else {
            items_debug_text(self.inventory)
        }
    }

    /// The player with one more item, behind the others.
    pub open spec fn with_item(self, item: ItemView) -> PlayerView {
        PlayerView { inventory: self.inventory.push(item), ..self }
    }
}

/// The line that tells of an item's arrival in the player's inventory.
pub open spec fn added_text(name: Seq<char>) -> Seq<char> {
    name + " has been added to your inventory!"@
}

impl Player {
    /// A player called `name`, who carries `inventory` and stands at column
    /// `x`, row `y`.
    pub fn new(name: String, inventory: Vec<InventoryItem>, x: u64, y: u64) -> (player: Player)
        ensures
            player@ == (PlayerView {
                name: name@,
                inventory: inventory.deep_view(),
                location: Location { x, y },
            }),
    {
        Player { name, inventory, location: Location { x, y } }
    }

    /// The line that shows what the player carries: the list of items, or a
    /// hint where there are none.
    pub fn print_inventory(&self) -> (line: String)
        ensures
            line@ == self@.inventory_text(),
    {
        if self.inventory.is_empty() {
            String::from_str("Oops! You don't have any items. Why not take a look around?")
        } else {
            debug_items(&self.inventory)
        }
    }

    /// Puts `item` behind the items that the player carries, and gives the
    /// line that says so.
    pub fn add_to_inventory(&mut self, item: InventoryItem) -> (line: String)
        ensures
            final(self)@ == old(self)@.with_item(item@),
            final(self).inventory@ == old(self).inventory@.push(item),
            line@ == added_text(item.name@),
    {
        let mut line = item.name.clone();
        line.append(" has been added to your inventory!");
        self.inventory.push(item);
        line
    }

    /// The items that the player carries, in their order.
    pub fn inventory(&self) -> (items: &[InventoryItem])
        ensures
            items@ == self.inventory@,
    {
        self.inventory.as_slice()
    }

    /// The player's items, open to change: what the caller leaves in them is
    /// what the player carries afterwards, and nothing else changes.
    pub fn inventory_mut(&mut self) -> (items: &mut Vec<InventoryItem>)
        ensures
            *items == old(self).inventory,
            final(self).inventory == *final(items),
            final(self).name == old(self).name,
            final(self).location == old(self).location,
    {
        &mut self.inventory
    }

    /// The cell that the player stands in.
    pub fn location(&self) -> (location: &Location)
        ensures
            *location == self.location,
    {
        &self.location
    }

    /// The player's place, open to change: where the caller leaves it is
    /// where the player stands afterwards, and nothing else changes.
    pub fn location_mut(&mut self) -> (location: &mut Location)
        ensures
            *location == old(self).location,
            final(self).location == *final(location),
            final(self).name == old(self).name,
            final(self).inventory == old(self).inventory,
    {
        &mut self.location
    }
}

} // verus!
