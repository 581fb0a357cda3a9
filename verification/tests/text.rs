use text_adventure::command::{classify, Command};
use text_adventure::text::{chars_of, chomp, fold_case, is_white_space, same_text, split_words};

#[test]
fn chomp_drops_one_line_feed() {
    assert_eq!(chomp("look around\n"), "look around");
    assert_eq!(chomp("look around"), "look around");
    assert_eq!(chomp("look around\n\n"), "look around\n");
    assert_eq!(chomp("\n"), "");
    assert_eq!(chomp(""), "");
    assert_eq!(chomp("a\nb"), "a\nb");
    assert_eq!(chomp("look around\r\n"), "look around\r");
    assert_eq!(chomp("look around \n"), "look around ");
    assert_eq!(chomp("héllo\n"), "héllo");
}

#[test]
fn same_text_compares_characters() {
    assert!(same_text("", ""));
    assert!(same_text("north", "north"));
    assert!(!same_text("north", "North"));
    assert!(!same_text("north", "north "));
    assert!(!same_text("north", "nort"));
    assert!(!same_text("north", "south"));
    assert!(same_text("Zoë", "Zoë"));
    assert!(!same_text("Zoë", "Zoe"));
}

#[test]
fn chars_of_gives_each_character() {
    assert_eq!(chars_of(""), Vec::<char>::new());
    assert_eq!(chars_of("Zoë!"), vec!['Z', 'o', 'ë', '!']);
}

#[test]
fn fold_case_folds_onto_lower_case() {
    assert_eq!(fold_case('A'), 'a');
    assert_eq!(fold_case('Z'), 'z');
    assert_eq!(fold_case('a'), 'a');
    assert_eq!(fold_case('m'), 'm');
    assert_eq!(fold_case(' '), ' ');
    assert_eq!(fold_case('@'), '@');
    assert_eq!(fold_case('['), '[');
    assert_eq!(fold_case('\u{212A}'), 'k');
    assert_eq!(fold_case('\u{17F}'), 's');
    assert_eq!(fold_case('É'), 'É');
}

#[test]
fn split_words_splits_at_white_space() {
    assert_eq!(split_words("move north"), vec!["move", "north"]);
    assert_eq!(split_words("  a\tb \n c  "), vec!["a", "b", "c"]);
    assert_eq!(split_words(""), Vec::<&str>::new());
    assert_eq!(split_words(" \t "), Vec::<&str>::new());
    assert_eq!(split_words("one"), vec!["one"]);
    assert_eq!(split_words("a\u{A0}b\u{3000}c"), vec!["a", "b", "c"]);
    assert_eq!(split_words("Zoë is here"), vec!["Zoë", "is", "here"]);
}

#[test]
fn is_white_space_agrees_with_std_on_every_character() {
    let mut white = 0;
    for code in 0..=0x10FFFFu32 {
        if let Some(c) = char::from_u32(code) {
            assert_eq!(is_white_space(c), c.is_whitespace(), "at U+{:04X}", code);
            if is_white_space(c) {
                white += 1;
            }
        }
    }
    assert_eq!(white, 25);
}

#[test]
fn split_words_agrees_with_std() {
    for line in ["", " ", "a", " a", "a ", "pick up  the\tcool\u{2003}potion \n", "\u{85}x\u{1680}y\u{205F}"] {
        assert_eq!(split_words(line), line.split_whitespace().collect::<Vec<&str>>());
    }
}

#[test]
fn fold_case_agrees_with_ascii_lower_case() {
    for code in 0..128u8 {
        let c = code as char;
        assert_eq!(fold_case(c), c.to_ascii_lowercase());
    }
}

#[test]
fn classify_fixed_commands() {
    assert_eq!(classify("look around"), Command::LookAround);
    assert_eq!(classify("talk"), Command::Talk);
    assert_eq!(classify("display map"), Command::DisplayMap);
    assert_eq!(classify("print inventory"), Command::PrintInventory);
    assert_eq!(classify("exit"), Command::Exit);
    assert_eq!(classify("help"), Command::Help);
}

#[test]
fn classify_fixed_commands_letter_for_letter() {
    assert_eq!(classify("Help"), Command::Unrecognized);
    assert_eq!(classify("help "), Command::Unrecognized);
    assert_eq!(classify(" help"), Command::Unrecognized);
    assert_eq!(classify("help\n"), Command::Unrecognized);
    assert_eq!(classify("look  around"), Command::Unrecognized);
    assert_eq!(classify("TALK"), Command::Unrecognized);
    assert_eq!(classify(""), Command::Unrecognized);
}

#[test]
fn classify_commands_with_a_name() {
    assert_eq!(classify("pick up cool potion"), Command::PickUp("cool potion"));
    assert_eq!(classify("take potato chip potion"), Command::Take("potato chip potion"));
    assert_eq!(classify("use dog potion"), Command::Use("dog potion"));
    assert_eq!(classify("move north"), Command::Move("north"));
}

#[test]
fn classify_keeps_the_name_as_it_stands() {
    assert_eq!(classify("pick up  Cool  Potion "), Command::PickUp(" Cool  Potion "));
    assert_eq!(classify("move "), Command::Move(""));
    assert_eq!(classify("use \t"), Command::Use("\t"));
    assert_eq!(classify("take Zoë's hat\r"), Command::Take("Zoë's hat\r"));
}

#[test]
fn classify_keyword_in_any_case() {
    assert_eq!(classify("PICK UP x"), Command::PickUp("x"));
    assert_eq!(classify("Pick uP X"), Command::PickUp("X"));
    assert_eq!(classify("TaKe x"), Command::Take("x"));
    assert_eq!(classify("USE x"), Command::Use("x"));
    assert_eq!(classify("mOVE NORTH"), Command::Move("NORTH"));
    // the Kelvin sign folds onto k, the long s onto s
    assert_eq!(classify("ta\u{212A}e x"), Command::Take("x"));
    assert_eq!(classify("u\u{17F}e x"), Command::Use("x"));
}

#[test]
fn classify_needs_keyword_and_space_at_the_start() {
    assert_eq!(classify("pick up"), Command::Unrecognized);
    assert_eq!(classify("pickup x"), Command::Unrecognized);
    assert_eq!(classify("pick  up x"), Command::Unrecognized);
    assert_eq!(classify(" move north"), Command::Unrecognized);
    assert_eq!(classify("move"), Command::Unrecognized);
    assert_eq!(classify("movenorth"), Command::Unrecognized);
    assert_eq!(classify("remove north"), Command::Unrecognized);
    assert_eq!(classify("take"), Command::Unrecognized);
    assert_eq!(classify("use"), Command::Unrecognized);
    assert_eq!(classify("möve north"), Command::Unrecognized);
}

#[test]
fn classify_name_ends_with_the_line() {
    assert_eq!(classify("take a\nb"), Command::Take("a"));
    assert_eq!(classify("move north\n"), Command::Move("north"));
    assert_eq!(classify("use \nx"), Command::Use(""));
}
