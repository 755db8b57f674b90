use vstd::prelude::*;

use crate::scene::Scene;

verus! {

/// What a submitted console line asks for.
#[derive(Clone, Copy, Debug, PartialEq, Eq, Structural)]
pub enum Command {
    Quit,
    Transition(Scene),
    Invalid,
}

/// The command that a whole console line names. Matching is exact and
/// case-sensitive: no whitespace is trimmed.
pub open spec fn command_of(text: Seq<char>) -> Command {
    if text == "quit"@ || text == "exit"@ {
        Command::Quit
    } else if text == "play"@ {
        Command::Transition(Scene::Play)
    } else if text == "options"@ || text == "settings"@ {
        Command::Transition(Scene::Options)
    } else if text == "main"@ || text == "home"@ {
        Command::Transition(Scene::Main)
    } else {
        Command::Invalid
    }
}

/// Whether two strings hold the same characters.
pub fn same_text(a: &str, b: &str) -> (r: bool)
    ensures
        r == (a@ == b@),
{
    let n = a.unicode_len();
    if n != b.unicode_len() {
        return false;
    }
    let mut i: usize = 0;
    while i < n
        invariant
            n == a@.len(),
            n == b@.len(),
            i <= n,
            forall|j: int| 0 <= j < i ==> a@[j] == b@[j],
        decreases n - i,
    {
        if a.get_char(i) != b.get_char(i) {
            return false;
        }
        i = i + 1;
    }
    assert(a@ =~= b@);
    true
}

/// Reads a submitted console line as a command.
pub fn interpret(text: &str) -> (r: Command)
    ensures
        r == command_of(text@),
{
    if same_text(text, "quit") || same_text(text, "exit") {
        Command::Quit
    } else if same_text(text, "play") {
        Command::Transition(Scene::Play)
    } else if same_text(text, "options") || same_text(text, "settings") {
        Command::Transition(Scene::Options)
    } else if same_text(text, "main") || same_text(text, "home") {
        Command::Transition(Scene::Main)
    } else {
        Command::Invalid
    }
}

} // verus!
