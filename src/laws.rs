use vstd::prelude::*;

use crate::app::{AppModel, Key};
use crate::command::{command_of, Command};
use crate::console::ConsoleStyle;
use crate::menu::MenuState;
use crate::scene::Scene;

verus! {

/// The recognised words and what each asks for: `quit` and `exit` quit,
/// `play` goes to Play, `options` and `settings` to Options, `main` and
/// `home` to Main.
pub proof fn lemma_command_table()
    ensures
        command_of("quit"@) == Command::Quit,
        command_of("exit"@) == Command::Quit,
        command_of("play"@) == Command::Transition(Scene::Play),
        command_of("options"@) == Command::Transition(Scene::Options),
        command_of("settings"@) == Command::Transition(Scene::Options),
        command_of("main"@) == Command::Transition(Scene::Main),
        command_of("home"@) == Command::Transition(Scene::Main),
{
    reveal_strlit("quit");
    reveal_strlit("exit");
    reveal_strlit("play");
    reveal_strlit("options");
    reveal_strlit("settings");
    reveal_strlit("main");
    reveal_strlit("home");
    assert("play"@[0] != "quit"@[0] && "play"@[0] != "exit"@[0]);
    assert("main"@[0] != "quit"@[0] && "main"@[0] != "exit"@[0] && "main"@[0] != "play"@[0]);
    assert("home"@[0] != "quit"@[0] && "home"@[0] != "exit"@[0] && "home"@[0] != "play"@[0]);
}

/// Submitting a recognised command empties the console line, puts it in the
/// normal style, and either stops the shell (scene kept) or moves to the
/// named scene (stop flag kept).
pub proof fn lemma_recognized_submit_resets(m: AppModel)
    requires
        command_of(m.input) != Command::Invalid,
    ensures
        m.submitted().input == Seq::<char>::empty(),
        m.submitted().style == ConsoleStyle::Normal,
        m.submitted().menu == m.menu,
        command_of(m.input) == Command::Quit ==> m.submitted().exit && m.submitted().scene
            == m.scene,
        forall|s: Scene|
            command_of(m.input) == Command::Transition(s) ==> m.submitted().scene == s
                && m.submitted().exit == m.exit,
{
}

/// Submitting text that names no command keeps the scene, the text and the
/// stop flag, and highlights the line as rejected.
pub proof fn lemma_unrecognized_submit(m: AppModel)
    requires
        command_of(m.input) == Command::Invalid,
    ensures
        m.submitted().scene == m.scene,
        m.submitted().input == m.input,
        m.submitted().exit == m.exit,
        m.submitted().menu == m.menu,
        m.submitted().style == ConsoleStyle::ErrorHighlight,
{
}

/// Submitting rejected text a second time gives the same state as the first
/// time.
pub proof fn lemma_invalid_submit_idempotent(m: AppModel)
    requires
        command_of(m.input) == Command::Invalid,
    ensures
        m.submitted().submitted() == m.submitted(),
{
}

/// With the first menu entry selected and an empty console line, activating
/// the entry (by Right, or by Enter) ends in the same state as typing `play`
/// and pressing Enter.
pub proof fn lemma_activate_first_entry_as_typing(m: AppModel)
    requires
        m.menu == Some(MenuState { selected: 0 }),
        m.input.len() == 0,
    ensures
        m.after_key(Key::Right, false) == m.after_key(Key::Char('p'), false).after_key(
            Key::Char('l'),
            false,
        ).after_key(Key::Char('a'), false).after_key(Key::Char('y'), false).after_key(
            Key::Enter,
            false,
        ),
        m.after_key(Key::Enter, false) == m.after_key(Key::Right, false),
        m.after_key(Key::Right, false).scene == Scene::Play,
        m.after_key(Key::Right, false).input == Seq::<char>::empty(),
        m.after_key(Key::Right, false).style == ConsoleStyle::Normal,
{
    reveal_strlit("play");
    let typed = m.typed('p').typed('l').typed('a').typed('y');
    assert(typed.input =~= "play"@);
    lemma_command_table();
}

/// Pressing `q` stops the shell whatever the console holds, and changes
/// nothing else.
pub proof fn lemma_q_always_exits(m: AppModel)
    ensures
        m.after_key(Key::Char('q'), false) == (AppModel { exit: true, ..m }),
{
}

/// While the terminal is too small, Escape stops the shell and every other
/// key leaves the state as it is.
pub proof fn lemma_undersized_only_escape(m: AppModel, key: Key)
    ensures
        m.after_key(Key::Esc, true) == (AppModel { exit: true, ..m }),
        key != Key::Esc ==> m.after_key(key, true) == m,
{
}

} // verus!
