use text_adventure::game::Game;
use text_adventure::inventory_item::InventoryItem;
use text_adventure::location::Location;
use text_adventure::npc::NPC;
use text_adventure::player::Player;
use text_adventure::room::{room, Room};
use text_adventure::world_map::WorldMap;

fn potion(name: &str, effects: &str) -> InventoryItem {
    InventoryItem::new(1, name.to_string(), effects.to_string())
}

fn npc(name: &str, inventory: Vec<InventoryItem>) -> NPC {
    NPC::new(name.to_string(), inventory, format!("hi I'm {}", name))
}

// the nine rooms of the starter world, (0,0) to (2,2)
fn starter_rooms() -> Vec<Room> {
    vec![
        room(0, 2, "top left", "this is room one",
            vec![potion("cool potion", "this potion has turned you into a C00L d00d!")],
            npc("George", vec![])),
        room(1, 2, "top center", "this is room two",
            vec![potion("dumb potion", "this potion has turned you into a dumbb d00d!")],
            npc("Mike", vec![])),
        room(2, 2, "top right", "this is room three",
            vec![potion("stinky potion", "this potion has turned you into a stinky d00d!")],
            npc("Helen", vec![])),
        room(0, 1, "middle left", "this is room four",
            vec![potion("charming potion", "this potion has turned you into a charming d00d!")],
            npc("Linda", vec![])),
        room(1, 1, "middle center", "this is room five",
            vec![potion("dog potion", "this potion has turned you into a C00L d0g!")],
            npc("Prudence", vec![potion("potato chip potion", "this potion has given you potato chips. You can't eat them, but they're there. LOOKING AT YOU.")])),
        room(2, 1, "middle right", "this is room six",
            vec![potion("barfing potion", "this potion has turned you into a barfing d00d!")],
            npc("Fred", vec![])),
        room(0, 0, "bottom left", "this is room seven",
            vec![potion("hungry potion", "this potion has turned you into a hungry d00d!")],
            npc("Crocodile Man", vec![])),
        room(1, 0, "bottom center", "this is room eight",
            vec![potion("cute potion", "this potion has turned you into a cute d00d!")],
            npc("Crocodile Woman", vec![])),
        room(2, 0, "bottom right", "this is room nine",
            vec![potion("tall potion", "this potion has turned you into a tall d00d!")],
            npc("Cool Unicorn", vec![])),
    ]
}

fn game_at(x: u64, y: u64) -> Game {
    game_with(vec![], x, y)
}

fn game_with(inventory: Vec<InventoryItem>, x: u64, y: u64) -> Game {
    let map = WorldMap::new("Liz's Great Adventure", starter_rooms());
    let player = Player::new("Liz\n".to_string(), inventory, x, y);
    assert!(map.is_dense());
    assert!(map.in_bounds(player.location()));
    Game::new(player, map, true)
}

fn names(items: &[InventoryItem]) -> Vec<String> {
    items.iter().map(|item| item.name.clone()).collect()
}

#[test]
fn moving_north_from_the_middle() {
    let mut game = game_at(1, 1);
    let lines = game.play("move north\n");
    assert_eq!(*game.player().location(), Location::new(1, 2));
    assert_eq!(lines, vec!["You have moved north."]);
    assert!(game.playing);
}

#[test]
fn moving_south_from_the_bottom_row_is_blocked() {
    let mut game = game_at(0, 0);
    let lines = game.play("move south\n");
    assert_eq!(*game.player().location(), Location::new(0, 0));
    assert_eq!(lines, vec!["You can not go south. Try a different direction."]);
}

#[test]
fn picking_up_twice_misses_the_second_time() {
    let mut game = game_at(0, 2);
    assert_eq!(names(game.current_room().items()), vec!["cool potion"]);

    let lines = game.play("pick up cool potion\n");
    assert_eq!(lines, vec!["cool potion has been added to your inventory!"]);
    assert_eq!(
        game.player().inventory(),
        &[potion("cool potion", "this potion has turned you into a C00L d00d!")]
    );
    assert!(game.current_room().items().is_empty());

    let before = game_state(&game);
    let lines = game.play("pick up cool potion\n");
    assert_eq!(lines, vec!["Sorry, cool potion wasn't found in the current room"]);
    assert_eq!(game_state(&game), before);
}

fn game_state(game: &Game) -> String {
    format!("{:?}", game)
}

#[test]
fn using_the_dog_potion_shows_its_effect() {
    let mut game = game_with(
        vec![potion("dog potion", "this potion has turned you into a C00L d0g!")],
        1,
        1,
    );
    let rooms_before = format!("{:?}", game.current_room());
    let lines = game.play("use dog potion\n");
    assert_eq!(lines, vec!["this potion has turned you into a C00L d0g!"]);
    assert!(game.player().inventory().is_empty());
    // the item went nowhere else
    assert_eq!(format!("{:?}", game.current_room()), rooms_before);
}

#[test]
fn exit_ends_the_session() {
    let mut game = game_at(1, 1);
    assert!(game.playing);
    let lines = game.play("exit\n");
    assert!(!game.playing);
    assert_eq!(lines, vec!["Thanks for playing!"]);
}

#[test]
fn pick_up_keeps_the_number_of_items() {
    let mut game = game_with(vec![potion("old potion", "nothing")], 1, 1);
    let room_count = game.current_room().items().len();
    let player_count = game.player().inventory().len();
    assert_eq!((room_count, player_count), (1, 1));

    game.play("pick up dog potion\n");
    assert_eq!(game.current_room().items().len(), 0);
    assert_eq!(game.player().inventory().len(), 2);
    assert_eq!(names(game.player().inventory()), vec!["old potion", "dog potion"]);

    // a miss moves nothing
    game.play("pick up dog potion\n");
    assert_eq!(game.current_room().items().len(), 0);
    assert_eq!(game.player().inventory().len(), 2);
}

#[test]
fn failed_pick_up_is_the_same_each_time() {
    let mut game = game_at(1, 1);
    let before = game_state(&game);
    let first = game.play("pick up sword\n");
    assert_eq!(first, vec!["Sorry, sword wasn't found in the current room"]);
    assert_eq!(game_state(&game), before);
    let second = game.play("pick up sword\n");
    assert_eq!(second, first);
    assert_eq!(game_state(&game), before);
}

#[test]
fn pick_up_takes_the_first_of_two_alike() {
    let list = vec![room(
        0,
        0,
        "only",
        "the only room",
        vec![potion("a", "other"), potion("b", "first"), potion("b", "second")],
        npc("Nobody", vec![]),
    )];
    let map = WorldMap::new("one", list);
    let mut game = Game::new(Player::new("p".to_string(), vec![], 0, 0), map, true);
    game.play("pick up b");
    assert_eq!(game.player().inventory(), &[potion("b", "first")]);
    assert_eq!(game.current_room().items(), &[potion("a", "other"), potion("b", "second")]);
    game.play("pick up b");
    assert_eq!(game.player().inventory(), &[potion("b", "first"), potion("b", "second")]);
    assert_eq!(game.current_room().items(), &[potion("a", "other")]);
}

#[test]
fn item_names_are_matched_exactly() {
    let mut game = game_at(1, 1);
    assert_eq!(
        game.play("pick up Dog potion\n"),
        vec!["Sorry, Dog potion wasn't found in the current room"]
    );
    assert_eq!(
        game.play("pick up dog potion \n"),
        vec!["Sorry, dog potion  wasn't found in the current room"]
    );
    assert_eq!(
        game.play("pick up  dog potion\n"),
        vec!["Sorry,  dog potion wasn't found in the current room"]
    );
    assert_eq!(names(game.current_room().items()), vec!["dog potion"]);
}

#[test]
fn boundary_moves_change_nothing() {
    let mut game = game_at(0, 0);
    assert_eq!(game.play("move south\n"), vec!["You can not go south. Try a different direction."]);
    assert_eq!(*game.player().location(), Location::new(0, 0));
    assert_eq!(game.play("move west\n"), vec!["You can not go west. Try a different direction."]);
    assert_eq!(*game.player().location(), Location::new(0, 0));

    let mut game = game_at(2, 2);
    assert_eq!(game.play("move north\n"), vec!["You can not go north. Try a different direction."]);
    assert_eq!(*game.player().location(), Location::new(2, 2));
    assert_eq!(game.play("move east\n"), vec!["You can not go east. Try a different direction."]);
    assert_eq!(*game.player().location(), Location::new(2, 2));
}

#[test]
fn moves_in_all_four_directions() {
    let mut game = game_at(1, 1);
    assert_eq!(game.play("move east\n"), vec!["You have moved east."]);
    assert_eq!(*game.player().location(), Location::new(2, 1));
    assert_eq!(game.play("move south\n"), vec!["You have moved south."]);
    assert_eq!(*game.player().location(), Location::new(2, 0));
    assert_eq!(game.play("move west\n"), vec!["You have moved west."]);
    assert_eq!(*game.player().location(), Location::new(1, 0));
    assert_eq!(game.play("move north\n"), vec!["You have moved north."]);
    assert_eq!(*game.player().location(), Location::new(1, 1));
}

#[test]
fn unknown_direction_is_reported() {
    let mut game = game_at(1, 1);
    let message = "That is not a valid direction. Try north, south, east, or west.";
    assert_eq!(game.play("move up\n"), vec![message]);
    assert_eq!(game.play("move North\n"), vec![message]);
    assert_eq!(game.play("move north \n"), vec![message]);
    assert_eq!(game.play("move \n"), vec![message]);
    assert_eq!(*game.player().location(), Location::new(1, 1));
}

#[test]
fn change_location_called_directly() {
    let mut game = game_at(0, 1);
    assert_eq!(game.change_location("west"), vec!["You can not go west. Try a different direction."]);
    assert_eq!(game.change_location("north"), vec!["You have moved north."]);
    assert_eq!(*game.player().location(), Location::new(0, 2));
}

#[test]
fn take_moves_an_item_from_the_npc() {
    let mut game = game_at(1, 1);
    let lines = game.play("take potato chip potion\n");
    assert_eq!(lines, vec!["potato chip potion has been added to your inventory!"]);
    assert_eq!(names(game.player().inventory()), vec!["potato chip potion"]);
    assert!(game.current_room().npc().inventory().is_empty());
    // the room's own items stay
    assert_eq!(names(game.current_room().items()), vec!["dog potion"]);

    let lines = game.play("take potato chip potion\n");
    assert_eq!(lines, vec!["Sorry, Prudence doesn't have potato chip potion."]);
    assert_eq!(names(game.player().inventory()), vec!["potato chip potion"]);
}

#[test]
fn take_does_not_reach_the_rooms_items() {
    let mut game = game_at(1, 1);
    assert_eq!(game.play("take dog potion\n"), vec!["Sorry, Prudence doesn't have dog potion."]);
    assert_eq!(names(game.current_room().items()), vec!["dog potion"]);
    assert!(game.player().inventory().is_empty());
}

#[test]
fn use_item_reports_a_missing_item() {
    let mut game = game_at(1, 1);
    let before = game_state(&game);
    assert_eq!(
        game.play("use dog potion\n"),
        vec!["Sorry, you don't have dog potion in your inventory."]
    );
    assert_eq!(game_state(&game), before);
}

#[test]
fn use_item_uses_up_one_item_only() {
    let mut game = game_with(
        vec![potion("a", "A!"), potion("b", "B!"), potion("a", "A again!")],
        0,
        0,
    );
    assert_eq!(game.use_item("a"), vec!["A!"]);
    assert_eq!(names(game.player().inventory()), vec!["b", "a"]);
    assert_eq!(game.use_item("a"), vec!["A again!"]);
    assert_eq!(names(game.player().inventory()), vec!["b"]);
}

#[test]
fn picked_up_item_can_be_used() {
    let mut game = game_at(1, 1);
    game.play("pick up dog potion\n");
    assert_eq!(game.play("use dog potion\n"), vec!["this potion has turned you into a C00L d0g!"]);
    assert!(game.player().inventory().is_empty());
    assert!(game.current_room().items().is_empty());
}

#[test]
fn help_lists_the_commands() {
    let mut game = game_at(1, 1);
    let before = game_state(&game);
    assert_eq!(
        game.play("help\n"),
        vec![
            "exit: exit the game",
            "move north, south, east, west: move in this direction",
            "look around: see a description of the current room",
            "pick up _item_: add the item to your inventory",
            "take _item_: take an item from an NPC",
            "use _item_: use an item in your inventory",
            "talk: talk to an NPC",
            "display map: look at map",
            "print inventory: show current player inventory",
        ]
    );
    assert_eq!(game_state(&game), before);
}

#[test]
fn talk_gives_the_npcs_line() {
    let mut game = game_at(2, 0);
    assert_eq!(game.play("talk\n"), vec!["hi I'm Cool Unicorn"]);
    assert_eq!(game.talk(), vec!["hi I'm Cool Unicorn"]);
}

#[test]
fn look_around_shows_room_items_and_npc() {
    let mut game = game_at(0, 0);
    assert_eq!(
        game.play("look around\n"),
        vec![
            "this is room seven",
            "This room contains: [InventoryItem { count: 1, name: \"hungry potion\", effects: \"this potion has turned you into a hungry d00d!\" }]",
            "Crocodile Man is here too!",
        ]
    );
}

#[test]
fn look_around_shows_the_npcs_items() {
    let game = game_at(1, 1);
    assert_eq!(
        game.look_around(),
        vec![
            "this is room five",
            "This room contains: [InventoryItem { count: 1, name: \"dog potion\", effects: \"this potion has turned you into a C00L d0g!\" }]",
            "Prudence is here too!",
            "Prudence has [InventoryItem { count: 1, name: \"potato chip potion\", effects: \"this potion has given you potato chips. You can't eat them, but they're there. LOOKING AT YOU.\" }].",
        ]
    );
}

#[test]
fn look_around_in_an_emptied_room() {
    let mut game = game_at(0, 0);
    game.play("pick up hungry potion\n");
    assert_eq!(game.play("look around\n"), vec!["this is room seven", "Crocodile Man is here too!"]);
}

#[test]
fn print_inventory_when_empty() {
    let mut game = game_at(1, 1);
    assert_eq!(
        game.play("print inventory\n"),
        vec!["Oops! You don't have any items. Why not take a look around?"]
    );
}

#[test]
fn print_inventory_lists_the_items() {
    let mut game = game_at(1, 1);
    game.play("pick up dog potion\n");
    game.play("take potato chip potion\n");
    assert_eq!(
        game.play("print inventory\n"),
        vec![
            "[InventoryItem { count: 1, name: \"dog potion\", effects: \"this potion has turned you into a C00L d0g!\" }, InventoryItem { count: 1, name: \"potato chip potion\", effects: \"this potion has given you potato chips. You can't eat them, but they're there. LOOKING AT YOU.\" }]",
        ]
    );
}

#[test]
fn display_map_command_lists_the_rooms() {
    let mut game = game_at(1, 1);
    let lines = game.play("display map\n");
    assert_eq!(lines.len(), 11);
    assert_eq!(lines[0], "Possible Destinations for Liz's Great Adventure");
    assert_eq!(lines[1], "=".repeat(47));
    assert_eq!(lines[2], "top left");
    assert_eq!(lines[10], "bottom right");
}

#[test]
fn unrecognized_input_is_shown_back() {
    let mut game = game_at(1, 1);
    let before = game_state(&game);
    assert_eq!(
        game.play("dance  with \"Prudence\"\n"),
        vec!["\"dance  with \\\"Prudence\\\"\"", "[\"dance\", \"with\", \"\\\"Prudence\\\"\"]"]
    );
    assert_eq!(game.play("\n"), vec!["\"\"", "[]"]);
    assert_eq!(game.play(""), vec!["\"\"", "[]"]);
    assert_eq!(game.play("Exit\n"), vec!["\"Exit\"", "[\"Exit\"]"]);
    assert_eq!(game.play("exit \n"), vec!["\"exit \"", "[\"exit\"]"]);
    assert_eq!(game.play("pick up\n"), vec!["\"pick up\"", "[\"pick\", \"up\"]"]);
    assert_eq!(game.play("help\n\n"), vec!["\"help\\n\"", "[\"help\"]"]);
    assert_eq!(game_state(&game), before);
    assert!(game.playing);
}

#[test]
fn keywords_are_read_in_any_case() {
    let mut game = game_at(1, 1);
    assert_eq!(game.play("MOVE north\n"), vec!["You have moved north."]);
    assert_eq!(game.play("Pick Up dumb potion\n"), vec!["dumb potion has been added to your inventory!"]);
    assert_eq!(game.play("uSe dumb potion\n"), vec!["this potion has turned you into a dumbb d00d!"]);
    assert_eq!(game.play("TAKE it\n"), vec!["Sorry, Mike doesn't have it."]);
}

#[test]
fn line_without_line_feed_is_read_alike() {
    let mut game = game_at(1, 1);
    assert_eq!(game.play("move north"), vec!["You have moved north."]);
    assert_eq!(game.parse_choice("talk"), vec!["hi I'm Mike"]);
}

#[test]
fn greeting_names_player_and_world() {
    let game = game_at(1, 1);
    assert_eq!(
        game.greeting(),
        vec![
            "Hi Liz\nWelcome to Liz's Great Adventure",
            "What would you like to do? (Enter 'help' to see a list of commands)",
        ]
    );
}

#[test]
fn a_walk_through_the_world() {
    let mut game = game_at(1, 1);
    for line in ["move west\n", "move south\n", "pick up hungry potion\n", "move east\n", "move east\n", "move east\n"] {
        game.play(line);
    }
    assert_eq!(*game.player().location(), Location::new(2, 0));
    assert_eq!(names(game.player().inventory()), vec!["hungry potion"]);
    assert_eq!(game.current_room().name, "bottom right");
    game.play("exit\n");
    assert!(!game.playing);
    assert_eq!(format!("{:?}", game.player()), "Player { name: \"Liz\\n\", inventory: [InventoryItem { count: 1, name: \"hungry potion\", effects: \"this potion has turned you into a hungry d00d!\" }], location: Location { x: 2, y: 0 } }");
}
