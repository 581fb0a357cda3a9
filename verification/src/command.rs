//! What a line of input asks for.

use vstd::prelude::*;
use crate::scan::lemma_first_index_is;
use crate::text::{after_keyword, chars_of, folded, opens_with, same_text, text_after};

verus! {

/// One thing that the player can ask for. The four commands that name
/// something carry that name as it was typed.
#[derive(Debug, PartialEq, Eq, Clone, Copy)]
pub enum Command<'a> {
    LookAround,
    Talk,
    DisplayMap,
    PrintInventory,
    Exit,
    Help,
    PickUp(&'a str),
    Take(&'a str),
    Use(&'a str),
    Move(&'a str),
    Unrecognized,
}

/// A command as contracts see it.
#[verifier::ext_equal]
pub enum CommandView {
    LookAround,
    Talk,
    DisplayMap,
    PrintInventory,
    Exit,
    Help,
    PickUp(Seq<char>),
    Take(Seq<char>),
    Use(Seq<char>),
    Move(Seq<char>),
    Unrecognized,
}

impl<'a> View for Command<'a> {
    type V = CommandView;

    open spec fn view(&self) -> CommandView {
        match *self {
            Command::LookAround => CommandView::LookAround,
            Command::Talk => CommandView::Talk,
            Command::DisplayMap => CommandView::DisplayMap,
            Command::PrintInventory => CommandView::PrintInventory,
            Command::Exit => CommandView::Exit,
            Command::Help => CommandView::Help,
            Command::PickUp(thing) => CommandView::PickUp(thing@),
            Command::Take(thing) => CommandView::Take(thing@),
            Command::Use(thing) => CommandView::Use(thing@),
            Command::Move(direction) => CommandView::Move(direction@),
            Command::Unrecognized => CommandView::Unrecognized,
        }
    }
}

/// The command that a line of input stands for. The first rule that fits
/// decides:
///
/// - one of six fixed commands, where the input is that command letter for
///   letter;
/// - one of four commands with a name, where the input begins with the
///   command's keyword and one space, in any case of its letters: the name
///   is what follows, to the end of the line and as it stands;
/// - otherwise, no command.
pub open spec fn classified(input: Seq<char>) -> CommandView {
    if input == "look around"@ {
        CommandView::LookAround
    } else if input == "talk"@ {
        CommandView::Talk
    } else if input == "display map"@ {
        CommandView::DisplayMap
    } else if input == "print inventory"@ {
        CommandView::PrintInventory
    } else if input == "exit"@ {
        CommandView::Exit
    } else if input == "help"@ {
        CommandView::Help
    } else if text_after(input, "pick up "@) is Some {
        CommandView::PickUp(text_after(input, "pick up "@)->0)
    } else if text_after(input, "take "@) is Some {
        CommandView::Take(text_after(input, "take "@)->0)
    } else if text_after(input, "use "@) is Some {
        CommandView::Use(text_after(input, "use "@)->0)
    } else if text_after(input, "move "@) is Some {
        CommandView::Move(text_after(input, "move "@)->0)
    } else {
        CommandView::Unrecognized
    }
}

/// Each of the six fixed commands, typed letter for letter, is read as that
/// command.
pub proof fn lemma_fixed_commands()
    ensures
        classified("look around"@) == CommandView::LookAround,
        classified("talk"@) == CommandView::Talk,
        classified("display map"@) == CommandView::DisplayMap,
        classified("print inventory"@) == CommandView::PrintInventory,
        classified("exit"@) == CommandView::Exit,
        classified("help"@) == CommandView::Help,
{
    reveal_keywords();
}

/// A keyword in any case of its letters, one space and a name that holds no
/// line feed are read as the keyword's command, with the name as it stands.
/// `typed` is the keyword with its space as the player wrote it.
pub proof fn lemma_named_commands(typed: Seq<char>, name: Seq<char>)
    requires
        forall|i: int| 0 <= i < name.len() ==> name[i] != '\n',
    ensures
        typed.len() == "pick up "@.len() && opens_with(typed, "pick up "@) ==> classified(
            typed + name,
        ) == CommandView::PickUp(name),
        typed.len() == "take "@.len() && opens_with(typed, "take "@) ==> classified(typed + name)
            == CommandView::Take(name),
        typed.len() == "use "@.len() && opens_with(typed, "use "@) ==> classified(typed + name)
            == CommandView::Use(name),
        typed.len() == "move "@.len() && opens_with(typed, "move "@) ==> classified(typed + name)
            == CommandView::Move(name),
{
    reveal_keywords();
    let input = typed + name;
    if typed.len() == "pick up "@.len() && opens_with(typed, "pick up "@) {
        lemma_text_after(typed, name, "pick up "@);
        assert(folded(input[0]) == 'p' && folded(input[1]) == 'i');
    }
    if typed.len() == "take "@.len() && opens_with(typed, "take "@) {
        lemma_text_after(typed, name, "take "@);
        assert(folded(input[0]) == 't' && folded(input[2]) == 'k');
    }
    if typed.len() == "use "@.len() && opens_with(typed, "use "@) {
        lemma_text_after(typed, name, "use "@);
        assert(folded(input[0]) == 'u');
    }
    if typed.len() == "move "@.len() && opens_with(typed, "move "@) {
        lemma_text_after(typed, name, "move "@);
        assert(folded(input[0]) == 'm');
    }
}

/// After a keyword as the player wrote it comes the name: all of it, where
/// it holds no line feed.
proof fn lemma_text_after(typed: Seq<char>, name: Seq<char>, keyword: Seq<char>)
    requires
        typed.len() == keyword.len(),
        opens_with(typed, keyword),
        forall|i: int| 0 <= i < name.len() ==> name[i] != '\n',
    ensures
        text_after(typed + name, keyword) == Some(name),
        forall|i: int| 0 <= i < typed.len() ==> (typed + name)[i] == typed[i],
{
    let input = typed + name;
    assert forall|i: int| 0 <= i < keyword.len() implies folded(#[trigger] input[i]) == folded(
        keyword[i],
    ) by {
        assert(input[i] == typed[i]);
    }
    assert(input.skip(keyword.len() as int) == name);
    lemma_first_index_is(name, |c: char| c == '\n', name.len() as int);
    assert(name.take(name.len() as int) == name);
}

/// What the keywords of the commands hold.
proof fn reveal_keywords()
    ensures
        "look around"@ == seq!['l', 'o', 'o', 'k', ' ', 'a', 'r', 'o', 'u', 'n', 'd'],
        "talk"@ == seq!['t', 'a', 'l', 'k'],
        "display map"@ == seq!['d', 'i', 's', 'p', 'l', 'a', 'y', ' ', 'm', 'a', 'p'],
        "print inventory"@ == seq![
            'p', 'r', 'i', 'n', 't', ' ', 'i', 'n', 'v', 'e', 'n', 't', 'o', 'r', 'y',
        ],
        "exit"@ == seq!['e', 'x', 'i', 't'],
        "help"@ == seq!['h', 'e', 'l', 'p'],
        "pick up "@ == seq!['p', 'i', 'c', 'k', ' ', 'u', 'p', ' '],
        "take "@ == seq!['t', 'a', 'k', 'e', ' '],
        "use "@ == seq!['u', 's', 'e', ' '],
        "move "@ == seq!['m', 'o', 'v', 'e', ' '],
{
    reveal_strlit("look around");
    reveal_strlit("talk");
    reveal_strlit("display map");
    reveal_strlit("print inventory");
    reveal_strlit("exit");
    reveal_strlit("help");
    reveal_strlit("pick up ");
    reveal_strlit("take ");
    reveal_strlit("use ");
    reveal_strlit("move ");
}

/// Reads a line of input, without its line feed, as a command.
pub fn classify<'a>(input: &'a str) -> (command: Command<'a>)
    ensures
        command@ == classified(input@),
{
    if same_text(input, "look around") {
        return Command::LookAround;
    }
    if same_text(input, "talk") {
        return Command::Talk;
    }
    if same_text(input, "display map") {
        return Command::DisplayMap;
    }
    if same_text(input, "print inventory") {
        return Command::PrintInventory;
    }
    if same_text(input, "exit") {
        return Command::Exit;
    }
    if same_text(input, "help") {
        return Command::Help;
    }
    let chars = chars_of(input);
    if let Some(thing) = after_keyword(input, &chars, "pick up ") {
        return Command::PickUp(thing);
    }
    if let Some(thing) = after_keyword(input, &chars, "take ") {
        return Command::Take(thing);
    }
    if let Some(thing) = after_keyword(input, &chars, "use ") {
        return Command::Use(thing);
    }
    if let Some(direction) = after_keyword(input, &chars, "move ") {
        return Command::Move(direction);
    }
    Command::Unrecognized
}

} // verus!
