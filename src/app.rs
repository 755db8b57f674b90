use vstd::prelude::*;

use crate::command::{command_of, interpret, Command};
use crate::console::{push_onto, without_last, Console, ConsoleStyle};
use crate::menu::{menu_command, MenuState};
use crate::scene::{scene_name, Scene};

verus! {

/// The smallest terminal width, in columns, at which the panels are drawn.
pub const MIN_WIDTH: u16 = 80;

/// The smallest terminal height, in rows, at which the panels are drawn.
pub const MIN_HEIGHT: u16 = 30;

/// Share of the terminal's height, in percent, given to the title panel.
pub const TITLE_PERCENT: u16 = 10;

/// Share of the terminal's height, in percent, given to the scene or menu panel.
pub const MAIN_PERCENT: u16 = 80;

/// Share of the terminal's height, in percent, given to the console panel.
pub const CONSOLE_PERCENT: u16 = 10;

/// A key press, as the shell routes it.
#[derive(Clone, Copy, Debug, PartialEq, Eq, Structural)]
pub enum Key {
    Char(char),
    Backspace,
    Enter,
    Up,
    Down,
    Right,
    Esc,
    Other,
}

/// The whole state of the shell: the scene, the console line and its style,
/// the menu cursor when the shell was built with a menu, and whether it is
/// to stop.
pub struct App {
    pub scene: Scene,
    pub console: Console,
    pub menu: Option<MenuState>,
    pub exit: bool,
}

/// The state of the shell as plain values.
pub struct AppModel {
    pub scene: Scene,
    pub input: Seq<char>,
    pub style: ConsoleStyle,
    pub menu: Option<MenuState>,
    pub exit: bool,
}

impl View for App {
    type V = AppModel;

    open spec fn view(&self) -> AppModel {
        AppModel {
            scene: self.scene,
            input: self.console.input@,
            style: self.console.style,
            menu: self.menu,
            exit: self.exit,
        }
    }
}

impl AppModel {
    /// A menu, where there is one, points at an entry.
    pub open spec fn wf(self) -> bool {
        match self.menu {
            Some(m) => m.wf(),
            None => true,
        }
    }

    /// A character typed on the console line.
    pub open spec fn typed(self, c: char) -> AppModel {
        AppModel { input: self.input.push(c), style: ConsoleStyle::Normal, ..self }
    }

    /// The console line after Backspace.
    pub open spec fn deleted(self) -> AppModel {
        AppModel { input: without_last(self.input), style: ConsoleStyle::Normal, ..self }
    }

    /// The console line emptied and in the normal style.
    pub open spec fn cleared(self) -> AppModel {
        AppModel { input: Seq::<char>::empty(), style: ConsoleStyle::Normal, ..self }
    }

    /// The state after `text` was handed to the command interpreter: a
    /// recognised command empties the console and changes the scene or asks to
    /// stop; any other text keeps the line and highlights it as rejected.
    pub open spec fn interpreted(self, text: Seq<char>) -> AppModel {
        match command_of(text) {
            Command::Quit => AppModel { exit: true, ..self.cleared() },
            Command::Transition(s) => AppModel { scene: s, ..self.cleared() },
            Command::Invalid => AppModel { style: ConsoleStyle::ErrorHighlight, ..self },
        }
    }

    /// The state after Enter submitted the console line.
    pub open spec fn submitted(self) -> AppModel {
        self.interpreted(self.input)
    }

    /// The state after the selected menu entry was activated: its command
    /// replaces the console line and is submitted; the last entry stops the
    /// shell directly. Without a menu nothing happens.
    pub open spec fn activated(self) -> AppModel {
        match self.menu {
            Some(m) => match menu_command(m.selected as nat) {
                Some(t) => AppModel { input: t, style: ConsoleStyle::Normal, ..self }.submitted(),
                None => AppModel { exit: true, ..self },
            },
            None => self,
        }
    }

    /// The state after the menu cursor moved up, where there is a menu.
    pub open spec fn moved_up(self) -> AppModel {
        match self.menu {
            Some(m) => AppModel {
                menu: Some(
                    MenuState { selected: if m.selected == 0 { 0 } else { (m.selected - 1) as usize } },
                ),
                ..self
            },
            None => self,
        }
    }

    /// The state after the menu cursor moved down, where there is a menu.
    pub open spec fn moved_down(self) -> AppModel {
        match self.menu {
            Some(m) => AppModel {
                menu: Some(
                    MenuState {
                        selected: if m.selected + 1 >= crate::menu::MENU_LEN {
                            m.selected
                        } else {
                            (m.selected + 1) as usize
                        },
                    },
                ),
                ..self
            },
            None => self,
        }
    }

    /// The state after a key press. While the terminal is too small only
    /// Escape counts. Otherwise Escape and `q` stop the shell, other
    /// characters and Backspace edit the line, the arrows move and activate
    /// the menu, and Enter activates the menu entry when the line is empty
    /// and there is a menu, and submits the line in all other cases.
    pub open spec fn after_key(self, key: Key, undersized: bool) -> AppModel {
        if undersized {
            if key == Key::Esc {
                AppModel { exit: true, ..self }
            } else {
                self
            }
        } else {
            match key {
                Key::Esc => AppModel { exit: true, ..self },
                Key::Char(c) => if c == 'q' {
                    AppModel { exit: true, ..self }
                } else {
                    self.typed(c)
                },
                Key::Backspace => self.deleted(),
                Key::Enter => if self.menu is Some && self.input.len() == 0 {
                    self.activated()
                } else {
                    self.submitted()
                },
                Key::Up => self.moved_up(),
                Key::Down => self.moved_down(),
                Key::Right => self.activated(),
                Key::Other => self,
            }
        }
    }
}

/// The glyph drawn after the console line on a given tick: the cursor on
/// even ticks and a blank on odd ones, so that it blinks.
pub open spec fn glyph_of(tick: u8) -> char {
    if tick % 2 == 0 {
        '|'
    } else {
        ' '
    }
}

/// The blinking cursor's glyph on a given tick.
pub fn cursor_glyph(tick: u8) -> (r: char)
    ensures
        r == glyph_of(tick),
{
    if tick % 2 == 0 {
        '|'
    } else {
        ' '
    }
}

/// Whether a terminal of this size is too small for the panels.
pub fn is_undersized(width: u16, height: u16) -> (r: bool)
    ensures
        r == (width < MIN_WIDTH || height < MIN_HEIGHT),
{
    width < MIN_WIDTH || height < MIN_HEIGHT
}

/// The text of the panel shown while the terminal is too small.
pub fn resize_message() -> (r: &'static str)
    ensures
        r@ == "Please resize the terminal to at least 80x30."@,
{
    "Please resize the terminal to at least 80x30."
}

impl App {
    /// The plain console shell, in the main scene with an empty line.
    pub fn new() -> (r: App)
        ensures
            r@.scene == Scene::Main,
            r@.input == Seq::<char>::empty(),
            r@.style == ConsoleStyle::Normal,
            r@.menu is None,
            !r@.exit,
            r@.wf(),
    {
        App { scene: Scene::Main, console: Console::new(), menu: None, exit: false }
    }

    /// The shell with a menu beside the console, its first entry selected.
    pub fn with_menu() -> (r: App)
        ensures
            r@.scene == Scene::Main,
            r@.input == Seq::<char>::empty(),
            r@.style == ConsoleStyle::Normal,
            r@.menu == Some(MenuState { selected: 0 }),
            !r@.exit,
            r@.wf(),
    {
        App { scene: Scene::Main, console: Console::new(), menu: Some(MenuState::new()), exit: false }
    }

    /// Hands `input` to the command interpreter and applies what it asks for.
    /// Returns `Ok(false)` for a command that quits, `Ok(true)` after a scene
    /// change, and `Err(true)` for text that names no command.
    pub fn handle_input(&mut self, input: &str) -> (r: Result<bool, bool>)
        ensures
            final(self)@ == old(self)@.interpreted(input@),
            r == match command_of(input@) {
                Command::Quit => Ok::<bool, bool>(false),
                Command::Transition(_) => Ok(true),
                Command::Invalid => Err(true),
            },
    {
        match interpret(input) {
            Command::Quit => {
                self.console.reset();
                self.exit = true;
                Ok(false)
            },
            Command::Transition(s) => {
                self.console.reset();
                self.scene = s;
                Ok(true)
            },
            Command::Invalid => {
                self.console.set_error();
                Err(true)
            },
        }
    }

    /// Submits the console line, as Enter does.
    pub fn submit(&mut self) -> (r: Result<bool, bool>)
        ensures
            final(self)@ == old(self)@.submitted(),
            r == match command_of(old(self)@.input) {
                Command::Quit => Ok::<bool, bool>(false),
                Command::Transition(_) => Ok(true),
                Command::Invalid => Err(true),
            },
    {
        let text = self.console.input.clone();
        self.handle_input(text.as_str())
    }

    /// Activates the selected menu entry.
    pub fn activate(&mut self)
        requires
            old(self)@.wf(),
        ensures
            final(self)@ == old(self)@.activated(),
            final(self)@.wf(),
    {
        match self.menu {
            Some(m) => match m.command_text() {
                Some(t) => {
                    self.console.input = String::from_str(t);
                    self.console.style = ConsoleStyle::Normal;
                    let _ = self.submit();
                },
                None => {
                    self.exit = true;
                },
            },
            None => {},
        }
    }

    /// Applies a key press; `undersized` tells whether the terminal is
    /// currently too small for the panels.
    pub fn handle_key(&mut self, key: Key, undersized: bool)
        requires
            old(self)@.wf(),
        ensures
            final(self)@ == old(self)@.after_key(key, undersized),
            final(self)@.wf(),
    {
        if undersized {
            if key == Key::Esc {
                self.exit = true;
            }
            return;
        }
        match key {
            Key::Esc => {
                self.exit = true;
            },
            Key::Char(c) => {
                if c == 'q' {
                    self.exit = true;
                } else {
                    self.console.push_char(c);
                }
            },
            Key::Backspace => {
                self.console.pop_char();
            },
            Key::Enter => {
                if self.menu.is_some() && self.console.input.unicode_len() == 0 {
                    self.activate();
                } else {
                    let _ = self.submit();
                }
            },
            Key::Up => {
                if let Some(m) = &mut self.menu {
                    m.move_up();
                }
            },
            Key::Down => {
                if let Some(m) = &mut self.menu {
                    m.move_down();
                }
            },
            Key::Right => {
                self.activate();
            },
            Key::Other => {},
        }
    }

    /// Whether the shell is to stop.
    pub fn should_exit(&self) -> (r: bool)
        ensures
            r == self.exit,
    {
        self.exit
    }

    /// The title of the middle panel: "Menu" when the shell has a menu,
    /// "Scene" otherwise.
    pub fn main_title(&self) -> (r: &'static str)
        ensures
            self.menu is Some ==> r@ == "Menu"@,
            self.menu is None ==> r@ == "Scene"@,
    {
        if self.menu.is_some() {
            "Menu"
        } else {
            "Scene"
        }
    }

    /// The name of the current scene, as the middle panel shows it.
    pub fn scene_text(&self) -> (r: String)
        ensures
            r@ == scene_name(self.scene),
    {
        self.scene.fmt()
    }

    /// The console panel's text: a prompt, the line typed so far, and the
    /// blinking cursor for the tick `*cursor`, which then moves on by one
    /// (wrapping).
    pub fn console_line(&self, cursor: &mut u8) -> (r: String)
        ensures
            r@ == ("🔥 "@ + self.console.input@).push(glyph_of(*old(cursor))),
            *final(cursor) == (if *old(cursor) == 255 { 0 } else { (*old(cursor) + 1) as u8 }),
    {
        let mut line = String::from_str("🔥 ");
        line.append(self.console.input.as_str());
        push_onto(&mut line, cursor_glyph(*cursor));
        *cursor = cursor.wrapping_add(1);
        line
    }

    /// The style the console panel is drawn in.
    pub fn console_style(&self) -> (r: ConsoleStyle)
        ensures
            r == self.console.style,
    {
        self.console.style
    }
}

} // verus!
