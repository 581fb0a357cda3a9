//! A session of play: the player, the world, and the interpreter that
//! carries out one line of input at a time.

use vstd::prelude::*;
use vstd::string::*;
use crate::command::{
    classified, classify, lemma_fixed_commands, lemma_named_commands, Command, CommandView,
};
use crate::inventory_item::{
    debug_items, found, holds, lemma_position_of, position_of, take_item_by_name, without,
    InventoryItem, ItemView,
};
use crate::location::Location;
use crate::player::{added_text, Player, PlayerView};
use crate::room::{room_text, Room, RoomView};
use crate::npc::NpcView;
use crate::text::{
    chomp, chomped, debug_list, debug_str, debug_text, lemma_chomped, list_debug_text, same_text,
    split_words, words,
};
use crate::scan::lemma_first_index;
use crate::world_map::{
    index_of, items_in, lemma_items_in_update, lemma_room_at, lemma_with_room, MapView, WorldMap,
};

verus! {

/// A session: who plays, in which world, and whether play goes on.
#[derive(Debug, PartialEq, Eq)]
pub struct Game {
    player: Player,
    map: WorldMap,
    pub playing: bool,
}

/// A session as contracts see it.
#[verifier::ext_equal]
pub struct GameView {
    pub player: PlayerView,
    pub map: MapView,
    pub playing: bool,
}

/// What one step of play leaves behind: the session after it, and the lines
/// to show to the player.
#[verifier::ext_equal]
pub struct Turn {
    pub game: GameView,
    pub output: Seq<Seq<char>>,
}

/// The line that reports an item that does not lie in the room.
pub open spec fn not_in_room_text(name: Seq<char>) -> Seq<char> {
    "Sorry, "@ + name + " wasn't found in the current room"@
}

/// The line that reports an item that the room's character does not carry.
pub open spec fn npc_lacks_text(npc: Seq<char>, name: Seq<char>) -> Seq<char> {
    "Sorry, "@ + npc + " doesn't have "@ + name + "."@
}

/// The line that reports an item that the player does not carry.
pub open spec fn player_lacks_text(name: Seq<char>) -> Seq<char> {
    "Sorry, you don't have "@ + name + " in your inventory."@
}

/// The line that confirms a step.
pub open spec fn moved_text(direction: Seq<char>) -> Seq<char> {
    "You have moved "@ + direction + "."@
}

/// The line that reports a step that would leave the grid.
pub open spec fn blocked_text(direction: Seq<char>) -> Seq<char> {
    "You can not go "@ + direction + ". Try a different direction."@
}

/// Whether `direction` names one of the four directions.
pub open spec fn is_direction(direction: Seq<char>) -> bool {
    ||| direction == "north"@
    ||| direction == "south"@
    ||| direction == "east"@
    ||| direction == "west"@
}

/// The list of commands.
pub open spec fn help_text() -> Seq<Seq<char>> {
    seq![
        "exit: exit the game"@,
        "move north, south, east, west: move in this direction"@,
        "look around: see a description of the current room"@,
        "pick up _item_: add the item to your inventory"@,
        "take _item_: take an item from an NPC"@,
        "use _item_: use an item in your inventory"@,
        "talk: talk to an NPC"@,
        "display map: look at map"@,
        "print inventory: show current player inventory"@,
    ]
}

impl GameView {
    /// What holds throughout a session: the world is well formed, a room
    /// lies at every location of the grid, and the player stands on the
    /// grid.
    pub open spec fn wf(self) -> bool {
        &&& self.map.wf()
        &&& self.map.dense()
        &&& self.map.in_bounds(self.player.location)
    }

    /// The room that the player stands in.
    pub open spec fn current_room(self) -> RoomView {
        self.map.room_at(self.player.location)
    }

    /// The session with `room` in the place of the room that the player
    /// stands in.
    pub open spec fn with_current_room(self, room: RoomView) -> GameView {
        GameView { map: self.map.with_room(self.player.location, room), ..self }
    }

    /// The session with the player at `l`.
    pub open spec fn with_player_at(self, l: Location) -> GameView {
        GameView { player: PlayerView { location: l, ..self.player }, ..self }
    }

    /// How many items there are in all: those that the player carries, those
    /// that lie in the rooms, and those that the characters carry.
    pub open spec fn item_count(self) -> nat {
        self.player.inventory.len() + items_in(self.map.rooms)
    }

    /// The lines that open a session.
    pub open spec fn greeting(self) -> Seq<Seq<char>> {
        seq![
            "Hi "@ + self.player.name + "Welcome to "@ + self.map.title,
            "What would you like to do? (Enter 'help' to see a list of commands)"@,
        ]
    }

    /// Picking up: the first item called `name` leaves the room that the
    /// player stands in and joins the player's items, behind the others.
    /// Without such an item in the room nothing changes.
    pub open spec fn pick_up(self, name: Seq<char>) -> Turn {
        let room = self.current_room();
        match found(room.items, name) {
            Some(item) => Turn {
                game: GameView {
                    player: self.player.with_item(item),
                    ..self.with_current_room(
                        RoomView { items: without(room.items, name), ..room },
                    )
                },
                output: seq![added_text(item.name)],
            },
            None => Turn { game: self, output: seq![not_in_room_text(name)] },
        }
    }

    /// Taking: the first item called `name` leaves the character of the room
    /// that the player stands in and joins the player's items, behind the
    /// others. Where the character carries no such item nothing changes.
    pub open spec fn take(self, name: Seq<char>) -> Turn {
        let room = self.current_room();
        match found(room.npc.inventory, name) {
            Some(item) => Turn {
                game: GameView {
                    player: self.player.with_item(item),
                    ..self.with_current_room(
                        RoomView {
                            npc: NpcView {
                                inventory: without(room.npc.inventory, name),
                                ..room.npc
                            },
                            ..room
                        },
                    )
                },
                output: seq![added_text(item.name)],
            },
            None => Turn { game: self, output: seq![npc_lacks_text(room.npc.name, name)] },
        }
    }

    /// Using: the first item called `name` leaves the player's items, for
    /// good, and its effect is shown. Where the player carries no such item
    /// nothing changes.
    pub open spec fn use_item(self, name: Seq<char>) -> Turn {
        match found(self.player.inventory, name) {
            Some(item) => Turn {
                game: GameView {
                    player: PlayerView {
                        inventory: without(self.player.inventory, name),
                        ..self.player
                    },
                    ..self
                },
                output: seq![item.effects],
            },
            None => Turn { game: self, output: seq![player_lacks_text(name)] },
        }
    }

    /// Where a step in `direction` takes the player: one cell further, if
    /// `direction` names a direction and the grid goes on that way.
    pub open spec fn step(self, direction: Seq<char>) -> Option<Location> {
        let here = self.player.location;
        let open = self.map.valid_directions(here);
        if direction == "north"@ && open.north {
            Some(Location { x: here.x, y: (here.y + 1) as u64 })
        } else if direction == "south"@ && open.south {
            Some(Location { x: here.x, y: (here.y - 1) as u64 })
        } else if direction == "west"@ && open.west {
            Some(Location { x: (here.x - 1) as u64, y: here.y })
        } else if direction == "east"@ && open.east {
            Some(Location { x: (here.x + 1) as u64, y: here.y })
        } else {
            None
        }
    }

    /// Moving: the player takes the step, where there is one to take;
    /// otherwise they stay, and the line says whether the grid ends there or
    /// `direction` names no direction.
    pub open spec fn change_location(self, direction: Seq<char>) -> Turn {
        match self.step(direction) {
            Some(l) => Turn { game: self.with_player_at(l), output: seq![moved_text(direction)] },
            None => Turn {
                game: self,
                output: seq![
                    if is_direction(direction) {
                        blocked_text(direction)
                    } else {
                        "That is not a valid direction. Try north, south, east, or west."@
                    },
                ],
            },
        }
    }

    /// Carrying out a command. `input` is the line that the command was read
    /// from, which is shown back where it was no command.
    pub open spec fn run(self, command: CommandView, input: Seq<char>) -> Turn {
        match command {
            CommandView::LookAround => Turn { game: self, output: room_text(self.current_room()) },
            CommandView::Talk => Turn {
                game: self,
                output: seq![self.current_room().npc.dialogue],
            },
            CommandView::DisplayMap => Turn { game: self, output: self.map.listing() },
            CommandView::PrintInventory => Turn {
                game: self,
                output: seq![self.player.inventory_text()],
            },
            CommandView::Exit => Turn {
                game: GameView { playing: false, ..self },
                output: seq!["Thanks for playing!"@],
            },
            CommandView::Help => Turn { game: self, output: help_text() },
            CommandView::PickUp(thing) => self.pick_up(thing),
            CommandView::Take(thing) => self.take(thing),
            CommandView::Use(thing) => self.use_item(thing),
            CommandView::Move(direction) => self.change_location(direction),
            CommandView::Unrecognized => Turn {
                game: self,
                output: seq![debug_text(input), list_debug_text(words(input))],
            },
        }
    }

    /// One turn: the line loses its line feed, is read as a command, and the
    /// command is carried out.
    pub open spec fn play(self, line: Seq<char>) -> Turn {
        self.run(classified(chomped(line)), chomped(line))
    }
}

/// A line made of a keyword, one space and a name does what the keyword
/// stands for with that name, whether or not a line feed ends the line. The
/// name holds no line feed itself.
pub proof fn lemma_play_named(game: GameView, name: Seq<char>)
    requires
        forall|i: int| 0 <= i < name.len() ==> name[i] != '\n',
    ensures
        game.play("pick up "@ + name) == game.pick_up(name),
        game.play("pick up "@ + name + seq!['\n']) == game.pick_up(name),
        game.play("take "@ + name) == game.take(name),
        game.play("take "@ + name + seq!['\n']) == game.take(name),
        game.play("use "@ + name) == game.use_item(name),
        game.play("use "@ + name + seq!['\n']) == game.use_item(name),
        game.play("move "@ + name) == game.change_location(name),
        game.play("move "@ + name + seq!['\n']) == game.change_location(name),
{
    reveal_strlit("pick up ");
    reveal_strlit("take ");
    reveal_strlit("use ");
    reveal_strlit("move ");
    lemma_named_commands("pick up "@, name);
    lemma_named_commands("take "@, name);
    lemma_named_commands("use "@, name);
    lemma_named_commands("move "@, name);
    lemma_chomped("pick up "@ + name);
    lemma_chomped("take "@ + name);
    lemma_chomped("use "@ + name);
    lemma_chomped("move "@ + name);
}

/// Each of the six fixed commands, with or without a line feed at its end,
/// does what it stands for.
pub proof fn lemma_play_fixed(game: GameView)
    ensures
        game.play("look around"@).output == room_text(game.current_room()),
        game.play("talk"@).output == seq![game.current_room().npc.dialogue],
        game.play("display map"@).output == game.map.listing(),
        game.play("print inventory"@).output == seq![game.player.inventory_text()],
        game.play("exit"@) == (Turn {
            game: GameView { playing: false, ..game },
            output: seq!["Thanks for playing!"@],
        }),
        game.play("help"@).output == help_text(),
        game.play("look around"@).game == game,
        game.play("talk"@).game == game,
        game.play("display map"@).game == game,
        game.play("print inventory"@).game == game,
        game.play("help"@).game == game,
        game.play("look around"@ + seq!['\n']) == game.play("look around"@),
        game.play("talk"@ + seq!['\n']) == game.play("talk"@),
        game.play("display map"@ + seq!['\n']) == game.play("display map"@),
        game.play("print inventory"@ + seq!['\n']) == game.play("print inventory"@),
        game.play("exit"@ + seq!['\n']) == game.play("exit"@),
        game.play("help"@ + seq!['\n']) == game.play("help"@),
{
    reveal_strlit("look around");
    reveal_strlit("talk");
    reveal_strlit("display map");
    reveal_strlit("print inventory");
    reveal_strlit("exit");
    reveal_strlit("help");
    lemma_fixed_commands();
    lemma_chomped("look around"@);
    lemma_chomped("talk"@);
    lemma_chomped("display map"@);
    lemma_chomped("print inventory"@);
    lemma_chomped("exit"@);
    lemma_chomped("help"@);
}

/// Items move and are used up, and none is made or lost otherwise: a turn
/// leaves the number of all items as it was, but for a turn that uses an
/// item of the player's, which leaves one less.
pub proof fn lemma_play_keeps_items(game: GameView, line: Seq<char>)
    requires
        game.wf(),
    ensures
        ({
            let used = classified(chomped(line)) matches CommandView::Use(name) && holds(
                game.player.inventory,
                name,
            );
            game.play(line).game.item_count() + (if used {
                1nat
            } else {
                0nat
            }) == game.item_count()
        }),
{
    let here = game.player.location;
    let room = game.current_room();
    let at = index_of(game.map.rooms, here);
    lemma_room_at(game.map, here);
    lemma_first_index(game.map.rooms, |r: RoomView| r.location == here);
    match classified(chomped(line)) {
        CommandView::PickUp(name) => {
            lemma_position_of(room.items, name);
            lemma_items_in_update(
                game.map.rooms,
                at,
                RoomView { items: without(room.items, name), ..room },
            );
        },
        CommandView::Take(name) => {
            lemma_position_of(room.npc.inventory, name);
            lemma_items_in_update(
                game.map.rooms,
                at,
                RoomView {
                    npc: NpcView { inventory: without(room.npc.inventory, name), ..room.npc },
                    ..room
                },
            );
        },
        CommandView::Use(name) => {
            lemma_position_of(game.player.inventory, name);
        },
        _ => {},
    }
}

/// Every turn keeps a session well formed: the world stays dense and the
/// player stays on the grid, whatever the line of input.
pub proof fn lemma_play_keeps_wf(game: GameView, line: Seq<char>)
    requires
        game.wf(),
    ensures
        game.play(line).game.wf(),
{
    let here = game.player.location;
    let room = game.current_room();
    lemma_room_at(game.map, here);
    assert forall|items: Seq<ItemView>|
        #![trigger game.with_current_room(RoomView { items, ..room })]
        game.with_current_room(RoomView { items, ..room }).wf() by {
        lemma_with_room(game.map, here, RoomView { items, ..room });
    }
    assert forall|npc: NpcView|
        #![trigger game.with_current_room(RoomView { npc, ..room })]
        game.with_current_room(RoomView { npc, ..room }).wf() by {
        lemma_with_room(game.map, here, RoomView { npc, ..room });
    }
}

/// Picking up moves one item and makes none: where the room holds an item
/// called `name`, the first such item leaves the room and stands last among
/// the player's items, and all other items stay where they were, in their
/// order; so the room and the player hold as many items together as before.
pub proof fn lemma_pick_up_moves_one_item(game: GameView, name: Seq<char>)
    requires
        game.wf(),
        holds(game.current_room().items, name),
    ensures
        ({
            let before = game.current_room().items;
            let at = position_of(before, name);
            let after = game.pick_up(name).game;
            &&& 0 <= at < before.len()
            &&& before[at].name == name
            &&& after.current_room().items == before.remove(at)
            &&& after.player.inventory == game.player.inventory.push(before[at])
            &&& after.player.location == game.player.location
            &&& after.current_room().items.len() + after.player.inventory.len()
                == before.len() + game.player.inventory.len()
        }),
{
    let here = game.player.location;
    let room = game.current_room();
    lemma_position_of(room.items, name);
    lemma_room_at(game.map, here);
    lemma_with_room(game.map, here, RoomView { items: without(room.items, name), ..room });
}

/// Taking moves one item and makes none: where the character of the room
/// carries an item called `name`, the first such item leaves the character
/// and stands last among the player's items; all other items stay where
/// they were, in their order, the room's own items among them.
pub proof fn lemma_take_moves_one_item(game: GameView, name: Seq<char>)
    requires
        game.wf(),
        holds(game.current_room().npc.inventory, name),
    ensures
        ({
            let before = game.current_room().npc.inventory;
            let at = position_of(before, name);
            let after = game.take(name).game;
            &&& 0 <= at < before.len()
            &&& before[at].name == name
            &&& after.current_room().npc.inventory == before.remove(at)
            &&& after.current_room().items == game.current_room().items
            &&& after.player.inventory == game.player.inventory.push(before[at])
            &&& after.player.location == game.player.location
        }),
{
    let here = game.player.location;
    let room = game.current_room();
    lemma_position_of(room.npc.inventory, name);
    lemma_room_at(game.map, here);
    lemma_with_room(
        game.map,
        here,
        RoomView {
            npc: NpcView { inventory: without(room.npc.inventory, name), ..room.npc },
            ..room
        },
    );
}

/// Using uses up one item: where the player carries an item called `name`,
/// the first such item leaves the player's items and its effect is shown;
/// the other items stay, in their order, and the world is as before.
pub proof fn lemma_use_item_uses_one(game: GameView, name: Seq<char>)
    requires
        holds(game.player.inventory, name),
    ensures
        ({
            let before = game.player.inventory;
            let at = position_of(before, name);
            let turn = game.use_item(name);
            &&& 0 <= at < before.len()
            &&& before[at].name == name
            &&& turn.output == seq![before[at].effects]
            &&& turn.game.player.inventory == before.remove(at)
            &&& turn.game.map == game.map
        }),
{
    lemma_position_of(game.player.inventory, name);
}

/// Whether or not the room holds an item called `name`, picking up leaves
/// the number of items that the room and the player hold together as it
/// was.
pub proof fn lemma_pick_up_keeps_count(game: GameView, name: Seq<char>)
    requires
        game.wf(),
    ensures
        ({
            let after = game.pick_up(name).game;
            after.current_room().items.len() + after.player.inventory.len()
                == game.current_room().items.len() + game.player.inventory.len()
        }),
{
    if holds(game.current_room().items, name) {
        lemma_pick_up_moves_one_item(game, name);
    }
}

/// Picking up what the room does not hold fails, and fails alike each time:
/// the session stays as it was and the same line reports the miss, on the
/// first try and on every try after it.
pub proof fn lemma_pick_up_absent(game: GameView, name: Seq<char>)
    requires
        !holds(game.current_room().items, name),
    ensures
        game.pick_up(name).game == game,
        game.pick_up(name).output == seq![not_in_room_text(name)],
        game.pick_up(name).game.pick_up(name) == game.pick_up(name),
{
}

/// Once the only item called `name` in the room has been picked up, a
/// second try fails and changes nothing.
pub proof fn lemma_pick_up_twice(game: GameView, name: Seq<char>)
    requires
        game.wf(),
        !holds(without(game.current_room().items, name), name),
    ensures
        ({
            let first = game.pick_up(name);
            let second = first.game.pick_up(name);
            &&& second.game == first.game
            &&& second.output == seq![not_in_room_text(name)]
        }),
{
    let here = game.player.location;
    let room = game.current_room();
    lemma_room_at(game.map, here);
    lemma_with_room(game.map, here, RoomView { items: without(room.items, name), ..room });
}

/// At an edge of the grid the step that would leave it is not taken: the
/// session stays as it was, the player where they stood, and the line
/// reports the direction as closed.
pub proof fn lemma_edge_stops_move(game: GameView, direction: Seq<char>)
    requires
        game.map.in_bounds(game.player.location),
        ({
            let here = game.player.location;
            ||| direction == "south"@ && here.y == 0
            ||| direction == "west"@ && here.x == 0
            ||| direction == "north"@ && here.y == game.map.max_y
            ||| direction == "east"@ && here.x == game.map.max_x
        }),
    ensures
        game.change_location(direction).game == game,
        game.change_location(direction).output == seq![blocked_text(direction)],
{
    lemma_directions_differ();
}

/// A step changes one coordinate of the player's place by one, stays on
/// the grid, and changes nothing else; where no step is taken nothing
/// changes at all.
pub proof fn lemma_move_takes_one_step(game: GameView, direction: Seq<char>)
    requires
        game.map.in_bounds(game.player.location),
    ensures
        ({
            let here = game.player.location;
            let after = game.change_location(direction).game;
            let there = after.player.location;
            &&& after == game.with_player_at(there)
            &&& game.map.in_bounds(there)
            &&& game.step(direction) is None ==> there == here
            &&& game.step(direction) is Some ==> {
                ||| direction == "north"@ && there.x == here.x && there.y == here.y + 1
                ||| direction == "south"@ && there.x == here.x && there.y == here.y - 1
                ||| direction == "west"@ && there.x == here.x - 1 && there.y == here.y
                ||| direction == "east"@ && there.x == here.x + 1 && there.y == here.y
            }
        }),
{
}

/// The names of the four directions are four different words.
pub proof fn lemma_directions_differ()
    ensures
        "north"@ != "south"@,
        "north"@ != "west"@,
        "north"@ != "east"@,
        "south"@ != "west"@,
        "south"@ != "east"@,
        "west"@ != "east"@,
{
    reveal_strlit("north");
    reveal_strlit("south");
    reveal_strlit("west");
    reveal_strlit("east");
    assert("north"@[0] == 'n');
    assert("south"@[0] == 's');
    assert("west"@[0] == 'w');
    assert("east"@[0] == 'e');
}

impl View for Game {
    type V = GameView;

    closed spec fn view(&self) -> GameView {
        GameView { player: self.player@, map: self.map@, playing: self.playing }
    }
}

impl Game {
    /// A session for `player` in the world `map`. The world has a room at
    /// every location of its grid, and the player stands on the grid.
    pub fn new(player: Player, map: WorldMap, playing: bool) -> (game: Game)
        requires
            map@.wf(),
            map@.dense(),
            map@.in_bounds(player.location),
        ensures
            game@ == (GameView { player: player@, map: map@, playing }),
            game@.wf(),
    {
        Game { player, map, playing }
    }

    /// The lines that open a session: a welcome by name, and a first
    /// question.
    pub fn greeting(&self) -> (lines: Vec<String>)
        ensures
            lines.deep_view() == self@.greeting(),
    {
        let mut hello = String::from_str("Hi ");
        hello.append(self.player.name.as_str());
        hello.append("Welcome to ");
        hello.append(self.map.title());
        vec![
            hello,
            String::from_str("What would you like to do? (Enter 'help' to see a list of commands)"),
        ]
    }

    /// The room that the player stands in.
    pub fn current_room(&self) -> (room: &Room)
        requires
            self@.wf(),
        ensures
            room@ == self@.current_room(),
    {
        self.map.room_at(&self.player.location)
    }

    /// The room that the player stands in, open to change: what the caller
    /// leaves is that room afterwards, and nothing else changes.
    fn current_room_mut(&mut self) -> (room: &mut Room)
        requires
            old(self)@.wf(),
        ensures
            room@ == old(self)@.current_room(),
            final(self)@ == old(self)@.with_current_room(final(room)@),
    {
        let here = self.player.location;
        self.map.room_at_mut(&here)
    }

    /// The player.
    pub fn player(&self) -> (player: &Player)
        ensures
            player@ == self@.player,
    {
        &self.player
    }

    /// The player, open to change: what the caller leaves is the player
    /// afterwards, and nothing else changes.
    fn player_mut(&mut self) -> (player: &mut Player)
        ensures
            player@ == old(self)@.player,
            final(self)@ == (GameView { player: final(player)@, ..old(self)@ }),
    {
        &mut self.player
    }

    /// The lines that describe the room that the player stands in.
    pub fn look_around(&self) -> (lines: Vec<String>)
        requires
            self@.wf(),
        ensures
            lines.deep_view() == room_text(self@.current_room()),
    {
        let room = self.current_room();
        let items = debug_items(&room.items);
        let npc_items = debug_items(&room.npc().inventory);
        room.describe(items.as_str(), npc_items.as_str())
    }

    /// What the character of the room that the player stands in has to say.
    pub fn talk(&self) -> (lines: Vec<String>)
        requires
            self@.wf(),
        ensures
            lines.deep_view() == seq![self@.current_room().npc.dialogue],
    {
        vec![self.current_room().npc.dialogue.clone()]
    }

    /// Takes the first item called `item` out of the room that the player
    /// stands in.
    fn string_to_inventory_item(&mut self, item: &str) -> (taken: Option<InventoryItem>)
        requires
            old(self)@.wf(),
        ensures
            taken.deep_view() == found(old(self)@.current_room().items, item@),
            final(self)@ == old(self)@.with_current_room(
                RoomView {
                    items: without(old(self)@.current_room().items, item@),
                    ..old(self)@.current_room()
                },
            ),
            final(self)@.wf(),
    {
        proof {
            let here = self@.player.location;
            let room = self@.current_room();
            lemma_room_at(self@.map, here);
            assert forall|items: Seq<ItemView>|
                #![trigger self@.with_current_room(RoomView { items, ..room })]
                self@.with_current_room(RoomView { items, ..room }).wf() by {
                lemma_with_room(self@.map, here, RoomView { items, ..room });
            }
        }
        let items = self.current_room_mut().items_mut();
        take_item_by_name(items, item)
    }

    /// Takes the first item called `item_name` away from the character of
    /// the room that the player stands in.
    fn string_to_npc_item(&mut self, item_name: &str) -> (taken: Option<InventoryItem>)
        requires
            old(self)@.wf(),
        ensures
            taken.deep_view() == found(old(self)@.current_room().npc.inventory, item_name@),
            final(self)@ == old(self)@.with_current_room(
                RoomView {
                    npc: NpcView {
                        inventory: without(old(self)@.current_room().npc.inventory, item_name@),
                        ..old(self)@.current_room().npc
                    },
                    ..old(self)@.current_room()
                },
            ),
            final(self)@.wf(),
    {
        proof {
            let here = self@.player.location;
            let room = self@.current_room();
            lemma_room_at(self@.map, here);
            assert forall|npc: NpcView|
                #![trigger self@.with_current_room(RoomView { npc, ..room })]
                self@.with_current_room(RoomView { npc, ..room }).wf() by {
                lemma_with_room(self@.map, here, RoomView { npc, ..room });
            }
        }
        let npc_inventory = self.current_room_mut().npc_mut().inventory_mut();
        take_item_by_name(npc_inventory, item_name)
    }

    /// Takes the first item called `item_name` out of the player's items.
    fn string_to_player_item(&mut self, item_name: &str) -> (taken: Option<InventoryItem>)
        ensures
            taken.deep_view() == found(old(self)@.player.inventory, item_name@),
            final(self)@ == (GameView {
                player: PlayerView {
                    inventory: without(old(self)@.player.inventory, item_name@),
                    ..old(self)@.player
                },
                ..old(self)@
            }),
    {
        let player_inventory = self.player_mut().inventory_mut();
        take_item_by_name(player_inventory, item_name)
    }

    /// Moves the first item called `item_name` from the room that the
    /// player stands in to the player, or reports that none lies there.
    ///
    /// Either way the room and the player hold as many items together as
    /// before.
    pub fn pick_up(&mut self, item_name: &str) -> (lines: Vec<String>)
        requires
            old(self)@.wf(),
        ensures
            final(self)@ == old(self)@.pick_up(item_name@).game,
            lines.deep_view() == old(self)@.pick_up(item_name@).output,
            final(self)@.wf(),
            final(self)@.current_room().items.len() + final(self)@.player.inventory.len() == old(
                self,
            )@.current_room().items.len() + old(self)@.player.inventory.len(),
    {
        proof {
            lemma_room_at(self@.map, self@.player.location);
            lemma_with_room(self@.map, self@.player.location, self@.current_room());
            lemma_pick_up_keeps_count(self@, item_name@);
        }
        match self.string_to_inventory_item(item_name) {
            Some(item) => vec![self.player.add_to_inventory(item)],
            None => {
                let mut line = String::from_str("Sorry, ");
                line.append(item_name);
                line.append(" wasn't found in the current room");
                vec![line]
            },
        }
    }

    /// Moves the first item called `item_name` from the character of the
    /// room that the player stands in to the player, or reports that the
    /// character carries none.
    pub fn take(&mut self, item_name: &str) -> (lines: Vec<String>)
        requires
            old(self)@.wf(),
        ensures
            final(self)@ == old(self)@.take(item_name@).game,
            lines.deep_view() == old(self)@.take(item_name@).output,
            final(self)@.wf(),
    {
        proof {
            lemma_room_at(self@.map, self@.player.location);
            lemma_with_room(self@.map, self@.player.location, self@.current_room());
        }
        match self.string_to_npc_item(item_name) {
            Some(item) => vec![self.player.add_to_inventory(item)],
            None => {
                let mut line = String::from_str("Sorry, ");
                line.append(self.current_room().npc().name.as_str());
                line.append(" doesn't have ");
                line.append(item_name);
                line.append(".");
                vec![line]
            },
        }
    }

    /// Uses up the first item called `item_name` that the player carries and
    /// shows its effect, or reports that the player carries none.
    pub fn use_item(&mut self, item_name: &str) -> (lines: Vec<String>)
        ensures
            final(self)@ == old(self)@.use_item(item_name@).game,
            lines.deep_view() == old(self)@.use_item(item_name@).output,
            old(self)@.wf() ==> final(self)@.wf(),
    {
        match self.string_to_player_item(item_name) {
            Some(item) => vec![item.effects],
            None => {
                let mut line = String::from_str("Sorry, you don't have ");
                line.append(item_name);
                line.append(" in your inventory.");
                vec![line]
            },
        }
    }

    /// Moves the player one cell in `direction`, where the grid goes on that
    /// way; otherwise the player stays, and the line says why.
    ///
    /// At an edge of the grid the step that would leave it is not taken: the
    /// player's place is as before, and no coordinate goes below 0.
    pub fn change_location(&mut self, direction: &str) -> (lines: Vec<String>)
        ensures
            final(self)@ == old(self)@.change_location(direction@).game,
            lines.deep_view() == old(self)@.change_location(direction@).output,
            old(self)@.wf() ==> final(self)@.wf(),
    {
        let valid_directions = self.map.valid_directions(self.player().location());
        let north = same_text(direction, "north");
        let south = same_text(direction, "south");
        let west = same_text(direction, "west");
        let east = same_text(direction, "east");
        let moved = if north && valid_directions.north {
            self.player_mut().location_mut().y += 1;
            true
        } else if south && valid_directions.south {
            self.player_mut().location_mut().y -= 1;
            true
        } else if west && valid_directions.west {
            self.player_mut().location_mut().x -= 1;
            true
        } else if east && valid_directions.east {
            self.player_mut().location_mut().x += 1;
            true
        } else {
            false
        };
        let mut line;
        if moved {
            line = String::from_str("You have moved ");
            line.append(direction);
            line.append(".");
        } else if north || south || west || east {
            line = String::from_str("You can not go ");
            line.append(direction);
            line.append(". Try a different direction.");
        } else {
            line = String::from_str(
                "That is not a valid direction. Try north, south, east, or west.",
            );
        }
        vec![line]
    }

    /// Carries out one line of input: drops its line feed, reads it as a
    /// command and carries the command out.
    pub fn parse_choice(&mut self, user_input: &str) -> (lines: Vec<String>)
        requires
            old(self)@.wf(),
        ensures
            final(self)@ == old(self)@.play(user_input@).game,
            lines.deep_view() == old(self)@.play(user_input@).output,
            final(self)@.wf(),
    {
        let user_input = chomp(user_input);
        match classify(user_input) {
            Command::LookAround => self.look_around(),
            Command::Talk => self.talk(),
            Command::DisplayMap => self.map.display_map(),
            Command::PrintInventory => vec![self.player.print_inventory()],
            Command::Exit => {
                self.playing = false;
                vec![String::from_str("Thanks for playing!")]
            },
            Command::Help => {
                vec![
                    String::from_str("exit: exit the game"),
                    String::from_str("move north, south, east, west: move in this direction"),
                    String::from_str("look around: see a description of the current room"),
                    String::from_str("pick up _item_: add the item to your inventory"),
                    String::from_str("take _item_: take an item from an NPC"),
                    String::from_str("use _item_: use an item in your inventory"),
                    String::from_str("talk: talk to an NPC"),
                    String::from_str("display map: look at map"),
                    String::from_str("print inventory: show current player inventory"),
                ]
            },
            Command::PickUp(thing) => self.pick_up(thing),
            Command::Take(thing) => self.take(thing),
            Command::Use(thing) => self.use_item(thing),
            Command::Move(direction) => self.change_location(direction),
            Command::Unrecognized => {
                vec![debug_str(user_input), debug_list(&split_words(user_input))]
            },
        }
    }

    /// Plays one turn on one line of input, and gives the lines to show.
    pub fn play(&mut self, line: &str) -> (lines: Vec<String>)
        requires
            old(self)@.wf(),
        ensures
            final(self)@ == old(self)@.play(line@).game,
            lines.deep_view() == old(self)@.play(line@).output,
            final(self)@.wf(),
    {
        self.parse_choice(line)
    }
}

} // verus!
