use ascii_life::app::{cursor_glyph, is_undersized, resize_message, App, Key, MIN_HEIGHT, MIN_WIDTH};
use ascii_life::command::{interpret, same_text, Command};
use ascii_life::console::{Console, ConsoleStyle};
use ascii_life::menu::{MenuState, MENU_LEN};
use ascii_life::player::full_name;
use ascii_life::scene::Scene;

fn type_text(app: &mut App, text: &str) {
    for c in text.chars() {
        app.handle_key(Key::Char(c), false);
    }
}

#[test]
fn scenario_type_play_and_enter() {
    let mut app = App::new();
    type_text(&mut app, "play");
    assert_eq!(app.console.input, "play");
    app.handle_key(Key::Enter, false);
    assert_eq!(app.scene, Scene::Play);
    assert_eq!(app.console.input, "");
    assert_eq!(app.console.style, ConsoleStyle::Normal);
    assert!(!app.should_exit());
}

#[test]
fn scenario_unknown_command_is_highlighted() {
    let mut app = App::new();
    type_text(&mut app, "xyz");
    app.handle_key(Key::Enter, false);
    assert_eq!(app.scene, Scene::Main);
    assert_eq!(app.console.input, "xyz");
    assert_eq!(app.console.style, ConsoleStyle::ErrorHighlight);
}

#[test]
fn scenario_backspace_clears_error() {
    let mut app = App::new();
    type_text(&mut app, "xyz");
    app.handle_key(Key::Enter, false);
    app.handle_key(Key::Backspace, false);
    assert_eq!(app.console.input, "xy");
    assert_eq!(app.console.style, ConsoleStyle::Normal);
    app.handle_key(Key::Backspace, false);
    app.handle_key(Key::Backspace, false);
    assert_eq!(app.console.input, "");
    assert_eq!(app.console.style, ConsoleStyle::Normal);
}

#[test]
fn scenario_undersized_terminal() {
    assert!(is_undersized(40, 10));
    let mut app = App::new();
    app.handle_key(Key::Char('a'), true);
    app.handle_key(Key::Enter, true);
    app.handle_key(Key::Char('q'), true);
    assert_eq!(app.console.input, "");
    assert!(!app.should_exit());
    app.handle_key(Key::Esc, true);
    assert!(app.should_exit());
}

#[test]
fn scenario_q_exits_whatever_the_line_holds() {
    let mut app = App::new();
    type_text(&mut app, "pla");
    app.handle_key(Key::Char('q'), false);
    assert!(app.should_exit());
    assert_eq!(app.console.input, "pla");
    let mut empty = App::new();
    empty.handle_key(Key::Char('q'), false);
    assert!(empty.should_exit());
}

#[test]
fn escape_exits() {
    let mut app = App::with_menu();
    app.handle_key(Key::Esc, false);
    assert!(app.should_exit());
}

#[test]
fn every_recognized_word_resets_the_console() {
    let cases = [
        ("quit", Scene::Main, true),
        ("exit", Scene::Main, true),
        ("play", Scene::Play, false),
        ("options", Scene::Options, false),
        ("settings", Scene::Options, false),
        ("main", Scene::Main, false),
        ("home", Scene::Main, false),
    ];
    for (word, scene, exits) in cases {
        let mut app = App::new();
        app.scene = Scene::Play;
        if scene == Scene::Play {
            app.scene = Scene::Options;
        }
        let before = app.scene;
        app.console.input = word.to_string();
        app.console.style = ConsoleStyle::ErrorHighlight;
        let r = app.submit();
        assert_eq!(app.console.input, "", "{}", word);
        assert_eq!(app.console.style, ConsoleStyle::Normal, "{}", word);
        assert_eq!(app.should_exit(), exits, "{}", word);
        if exits {
            assert_eq!(r, Ok(false));
            assert_eq!(app.scene, before);
        } else {
            assert_eq!(r, Ok(true));
            assert_eq!(app.scene, scene);
        }
    }
}

#[test]
fn unrecognized_text_is_kept() {
    for text in [" play", "Play", "play ", "", "q", "quitt", "hom"] {
        let mut app = App::new();
        app.scene = Scene::Options;
        app.console.input = text.to_string();
        assert_eq!(app.submit(), Err(true));
        assert_eq!(app.scene, Scene::Options);
        assert_eq!(app.console.input, text);
        assert_eq!(app.console.style, ConsoleStyle::ErrorHighlight);
        assert!(!app.should_exit());
    }
}

#[test]
fn invalid_submit_twice_gives_the_same_outcome() {
    let mut app = App::new();
    type_text(&mut app, "xyz");
    assert_eq!(app.submit(), Err(true));
    assert_eq!(app.submit(), Err(true));
    assert_eq!(app.scene, Scene::Main);
    assert_eq!(app.console.input, "xyz");
    assert_eq!(app.console.style, ConsoleStyle::ErrorHighlight);
}

#[test]
fn handle_input_results() {
    let mut app = App::new();
    assert_eq!(app.handle_input("settings"), Ok(true));
    assert_eq!(app.scene, Scene::Options);
    assert_eq!(app.handle_input("nope"), Err(true));
    assert_eq!(app.console.style, ConsoleStyle::ErrorHighlight);
    assert_eq!(app.scene, Scene::Options);
    assert_eq!(app.handle_input("home"), Ok(true));
    assert_eq!(app.scene, Scene::Main);
    assert_eq!(app.console.style, ConsoleStyle::Normal);
    assert_eq!(app.handle_input("exit"), Ok(false));
    assert!(app.should_exit());
}

#[test]
fn interpret_words() {
    assert_eq!(interpret("quit"), Command::Quit);
    assert_eq!(interpret("exit"), Command::Quit);
    assert_eq!(interpret("play"), Command::Transition(Scene::Play));
    assert_eq!(interpret("options"), Command::Transition(Scene::Options));
    assert_eq!(interpret("settings"), Command::Transition(Scene::Options));
    assert_eq!(interpret("main"), Command::Transition(Scene::Main));
    assert_eq!(interpret("home"), Command::Transition(Scene::Main));
    assert_eq!(interpret("QUIT"), Command::Invalid);
    assert_eq!(interpret(" play"), Command::Invalid);
}

#[test]
fn same_text_compares_characters() {
    assert!(same_text("", ""));
    assert!(same_text("héllo", "héllo"));
    assert!(!same_text("hello", "hellO"));
    assert!(!same_text("hell", "hello"));
}

#[test]
fn pop_char_on_empty_console_is_a_no_op() {
    let mut console = Console::new();
    console.pop_char();
    assert_eq!(console.input, "");
    assert_eq!(console.style, ConsoleStyle::Normal);
    assert_eq!(console.text(), "");
}

#[test]
fn console_edits() {
    let mut console = Console::new();
    console.push_char('a');
    console.push_char('é');
    assert_eq!(console.text(), "aé");
    console.set_error();
    assert_eq!(console.text(), "aé");
    assert_eq!(console.style, ConsoleStyle::ErrorHighlight);
    console.push_char('b');
    assert_eq!(console.style, ConsoleStyle::Normal);
    console.pop_char();
    assert_eq!(console.text(), "aé");
    console.pop_char();
    assert_eq!(console.text(), "a");
    console.set_error();
    console.reset();
    assert_eq!(console.text(), "");
    assert_eq!(console.style, ConsoleStyle::Normal);
}

#[test]
fn menu_moves_clamp() {
    let mut menu = MenuState::new();
    menu.move_up();
    assert_eq!(menu.selected, 0);
    menu.move_down();
    assert_eq!(menu.selected, 1);
    menu.move_down();
    assert_eq!(menu.selected, MENU_LEN - 1);
    menu.move_down();
    assert_eq!(menu.selected, MENU_LEN - 1);
    menu.move_up();
    assert_eq!(menu.selected, 1);
    assert!(menu.is_selected(1));
    assert!(!menu.is_selected(0));
}

#[test]
fn menu_labels_and_commands() {
    assert_eq!(MenuState::label(0), "Play");
    assert_eq!(MenuState::label(1), "Options");
    assert_eq!(MenuState::label(2), "Quit");
    assert_eq!(MenuState { selected: 0 }.command_text(), Some("play"));
    assert_eq!(MenuState { selected: 1 }.command_text(), Some("options"));
    assert_eq!(MenuState { selected: 2 }.command_text(), None);
}

#[test]
fn activating_first_entry_equals_typing_play() {
    let mut by_menu = App::with_menu();
    by_menu.handle_key(Key::Right, false);
    let mut by_typing = App::with_menu();
    type_text(&mut by_typing, "play");
    by_typing.handle_key(Key::Enter, false);
    assert_eq!(by_menu.scene, Scene::Play);
    assert_eq!(by_menu.scene, by_typing.scene);
    assert_eq!(by_menu.console.input, by_typing.console.input);
    assert_eq!(by_menu.console.style, by_typing.console.style);
    assert_eq!(by_menu.menu, by_typing.menu);
    assert_eq!(by_menu.exit, by_typing.exit);
}

#[test]
fn menu_keys_drive_the_shell() {
    let mut app = App::with_menu();
    app.handle_key(Key::Down, false);
    assert_eq!(app.menu, Some(MenuState { selected: 1 }));
    app.handle_key(Key::Enter, false);
    assert_eq!(app.scene, Scene::Options);
    assert_eq!(app.console.input, "");
    app.handle_key(Key::Down, false);
    app.handle_key(Key::Down, false);
    assert_eq!(app.menu, Some(MenuState { selected: 2 }));
    app.handle_key(Key::Up, false);
    app.handle_key(Key::Down, false);
    app.activate();
    assert!(app.should_exit());
    assert_eq!(app.scene, Scene::Options);
}

#[test]
fn menu_enter_with_text_submits_the_text() {
    let mut app = App::with_menu();
    type_text(&mut app, "home");
    app.scene = Scene::Options;
    app.handle_key(Key::Enter, false);
    assert_eq!(app.scene, Scene::Main);
    assert_eq!(app.menu, Some(MenuState { selected: 0 }));
}

#[test]
fn console_variant_ignores_menu_keys() {
    let mut app = App::new();
    app.handle_key(Key::Down, false);
    app.handle_key(Key::Right, false);
    app.handle_key(Key::Other, false);
    assert_eq!(app.menu, None);
    assert_eq!(app.scene, Scene::Main);
    assert!(!app.should_exit());
    app.handle_key(Key::Enter, false);
    assert_eq!(app.console.style, ConsoleStyle::ErrorHighlight);
}

#[test]
fn scene_names() {
    assert_eq!(Scene::Main.fmt(), "Main");
    assert_eq!(Scene::Play.fmt(), "Play");
    assert_eq!(Scene::Options.fmt(), "Options");
    let mut app = App::new();
    app.handle_input("options").unwrap();
    assert_eq!(app.scene_text(), "Options");
}

#[test]
fn panel_titles() {
    assert_eq!(App::new().main_title(), "Scene");
    assert_eq!(App::with_menu().main_title(), "Menu");
}

#[test]
fn console_line_blinks_and_wraps() {
    let mut app = App::new();
    type_text(&mut app, "ab");
    let mut tick: u8 = 0;
    assert_eq!(app.console_line(&mut tick), "🔥 ab|");
    assert_eq!(tick, 1);
    assert_eq!(app.console_line(&mut tick), "🔥 ab ");
    assert_eq!(tick, 2);
    let mut last: u8 = 255;
    assert_eq!(app.console_line(&mut last), "🔥 ab ");
    assert_eq!(last, 0);
    assert_eq!(cursor_glyph(4), '|');
    assert_eq!(cursor_glyph(7), ' ');
    app.console.set_error();
    assert_eq!(app.console_style(), ConsoleStyle::ErrorHighlight);
}

#[test]
fn size_threshold() {
    assert_eq!((MIN_WIDTH, MIN_HEIGHT), (80, 30));
    assert!(!is_undersized(80, 30));
    assert!(is_undersized(79, 30));
    assert!(is_undersized(80, 29));
    assert!(!is_undersized(200, 60));
    assert_eq!(resize_message(), "Please resize the terminal to at least 80x30.");
}

#[test]
fn full_name_joins_with_a_space() {
    assert_eq!(full_name("Ada", "Lovelace"), "Ada Lovelace");
    assert_eq!(full_name("", ""), " ");
}
