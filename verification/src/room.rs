use vstd::prelude::*;
use vstd::string::*;
use crate::inventory_item::{items_debug_text, InventoryItem, ItemView};
use crate::location::Location;
use crate::npc::{NPC, NpcView};

verus! {

/// One cell of the world: where it lies, what it is called and looks like,
/// the items that lie in it, and the one character who lives there.
#[derive(Debug, PartialEq, Eq)]
pub struct Room {
    pub location: Location,
    pub name: String,
    pub description: String,
    pub items: Vec<InventoryItem>,
    pub npc: NPC,
}

/// A room as contracts see it.
#[verifier::ext_equal]
pub struct RoomView {
    pub location: Location,
    pub name: Seq<char>,
    pub description: Seq<char>,
    pub items: Seq<ItemView>,
    pub npc: NpcView,
}

impl View for Room {
    type V = RoomView;

    open spec fn view(&self) -> RoomView {
        RoomView {
            location: self.location,
            name: self.name@,
            description: self.description@,
            items: self.items.deep_view(),
            npc: self.npc@,
        }
    }
}

impl DeepView for Room {
    type V = RoomView;

    open spec fn deep_view(&self) -> RoomView {
        self@
    }
}

/// The lines that describe a room: its description; its items, where it has
/// any, as `items` lists them; its character; and the character's items,
/// where it has any, as `npc_items` lists them.
pub open spec fn room_lines(room: RoomView, items: Seq<char>, npc_items: Seq<char>) -> Seq<
    Seq<char>,
> {
    seq![room.description] + (if room.items.len() > 0 {
        seq!["This room contains: "@ + items]
    } else {
        Seq::empty()
    }) + seq![room.npc.name + " is here too!"@] + (if room.npc.inventory.len() > 0 {
        seq![room.npc.name + " has "@ + npc_items + "."@]
    } else {
        Seq::empty()
    })
}

/// The lines that describe a room, with its items and its character's items
/// listed as `{:?}` writes them.
pub open spec fn room_text(room: RoomView) -> Seq<Seq<char>> {
    room_lines(room, items_debug_text(room.items), items_debug_text(room.npc.inventory))
}

impl Room {
    /// A room in column `x`, row `y`.
    pub fn new(
        x: u64,
        y: u64,
        name: String,
        description: String,
        items: Vec<InventoryItem>,
        npc: NPC,
    ) -> (room: Room)
        ensures
            room@ == (RoomView {
                location: Location { x, y },
                name: name@,
                description: description@,
                items: items.deep_view(),
                npc: npc@,
            }),
    {
        Room { location: Location::new(x, y), name, description, items, npc }
    }

    /// The items that lie in the room, in their order.
    pub fn items(&self) -> (items: &[InventoryItem])
        ensures
            items@ == self.items@,
    {
        self.items.as_slice()
    }

    /// The room's items, open to change: what the caller leaves in them is
    /// what lies in the room afterwards, and nothing else changes.
    pub fn items_mut(&mut self) -> (items: &mut Vec<InventoryItem>)
        ensures
            *items == old(self).items,
            final(self).items == *final(items),
            final(self).location == old(self).location,
            final(self).name == old(self).name,
            final(self).description == old(self).description,
            final(self).npc == old(self).npc,
    {
        &mut self.items
    }

    /// The lines that describe the room, where `items` is the text that
    /// lists its items and `npc_items` the text that lists its character's.
    pub fn describe(&self, items: &str, npc_items: &str) -> (lines: Vec<String>)
        ensures
            lines.deep_view() == room_lines(self@, items@, npc_items@),
    {
        let mut lines: Vec<String> = Vec::new();
        lines.push(self.description.clone());
        if !self.items.is_empty() {
            let mut line = String::from_str("This room contains: ");
            line.append(items);
            lines.push(line);
        }
        let mut line = self.npc.name.clone();
        line.append(" is here too!");
        lines.push(line);
        if !self.npc.inventory.is_empty() {
            let mut line = self.npc.name.clone();
            line.append(" has ");
            line.append(npc_items);
            line.append(".");
            lines.push(line);
        }
        lines
    }

    /// The character who lives in the room.
    pub fn npc(&self) -> (npc: &NPC)
        ensures
            npc == self.npc,
    {
        &self.npc
    }

    /// The room's character, open to change: what the caller leaves is the
    /// room's character afterwards, and nothing else changes.
    pub fn npc_mut(&mut self) -> (npc: &mut NPC)
        ensures
            *npc == old(self).npc,
            final(self).npc == *final(npc),
            final(self).location == old(self).location,
            final(self).name == old(self).name,
            final(self).description == old(self).description,
            final(self).items == old(self).items,
    {
        &mut self.npc
    }
}

/// A room from string slices: `Room::new` with the name and the description
/// copied into strings of their own.
pub fn room(
    x: u64,
    y: u64,
    name: &'static str,
    desc: &'static str,
    items: Vec<InventoryItem>,
    npc: NPC,
) -> (room: Room)
    ensures
        room@ == (RoomView {
            location: Location { x, y },
            name: name@,
            description: desc@,
            items: items.deep_view(),
            npc: npc@,
        }),
{
    Room::new(x, y, String::from_str(name), String::from_str(desc), items, npc)
}

} // verus!
