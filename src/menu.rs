use vstd::prelude::*;

verus! {

/// The number of entries of the menu: Play, Options and Quit.
pub const MENU_LEN: usize = 3;

/// The label shown for each menu entry.
pub open spec fn menu_label(i: nat) -> Seq<char> {
    if i == 0 {
        "Play"@
    } else if i == 1 {
        "Options"@
    } else {
        "Quit"@
    }
}

/// The console command that an entry stands for; the last entry quits
/// directly and stands for none.
pub open spec fn menu_command(i: nat) -> Option<Seq<char>> {
    if i == 0 {
        Some("play"@)
    } else if i == 1 {
        Some("options"@)
    } else {
        None
    }
}

/// The cursor over the menu's entries.
#[derive(Clone, Copy, Debug, PartialEq, Eq, Structural)]
pub struct MenuState {
    pub selected: usize,
}

impl MenuState {
    /// The cursor points at an entry.
    pub open spec fn wf(self) -> bool {
        self.selected < MENU_LEN
    }

    /// A menu with its first entry selected.
    pub fn new() -> (r: MenuState)
        ensures
            r.selected == 0,
            r.wf(),
    {
        MenuState { selected: 0 }
    }

    /// The label of entry `i`.
    pub fn label(i: usize) -> (r: &'static str)
        requires
            i < MENU_LEN,
        ensures
            r@ == menu_label(i as nat),
    {
        if i == 0 {
            "Play"
        } else if i == 1 {
            "Options"
        } else {
            "Quit"
        }
    }

    /// Whether entry `i` is the selected one, and so drawn highlighted.
    pub fn is_selected(&self, i: usize) -> (r: bool)
        ensures
            r == (i == self.selected),
    {
        i == self.selected
    }

    /// Moves the cursor one entry up; at the first entry it stays there.
    pub fn move_up(&mut self)
        requires
            old(self).wf(),
        ensures
            final(self).wf(),
            final(self).selected == if old(self).selected == 0 {
                0
            } else {
                (old(self).selected - 1) as usize
            },
    {
        if self.selected > 0 {
            self.selected = self.selected - 1;
        }
    }

    /// Moves the cursor one entry down; at the last entry it stays there.
    pub fn move_down(&mut self)
        requires
            old(self).wf(),
        ensures
            final(self).wf(),
            final(self).selected == if old(self).selected + 1 >= MENU_LEN {
                old(self).selected
            } else {
                (old(self).selected + 1) as usize
            },
    {
        if self.selected + 1 < MENU_LEN {
            self.selected = self.selected + 1;
        }
    }

    /// The console command that the selected entry stands for, or `None` for
    /// the entry that quits.
    pub fn command_text(&self) -> (r: Option<&'static str>)
        requires
            self.wf(),
        ensures
            r is Some <==> menu_command(self.selected as nat) is Some,
            r is Some ==> menu_command(self.selected as nat) == Some(r->0@),
    {
        if self.selected == 0 {
            Some("play")
        } else if self.selected == 1 {
            Some("options")
        } else {
            None
        }
    }
}

} // verus!
