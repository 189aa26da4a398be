//! The modal UI state: exactly one `AppState` is active at a time, owned by
//! one `AppStateManager`, and mutated only by event handling or by the
//! delivery of an asynchronous result.

use vstd::prelude::*;
use crate::models::Theme;

verus! {

/// The modal states of the interactive dashboard.
#[derive(Debug, Clone, PartialEq)]
pub enum AppState {
    Dashboard,
    CommandMenu,
    ThemeSelector,
    ConfirmRefresh,
    ConfirmReconfigure,
    ShowHelp,
    LoadingRefresh,
    LoadingCache,
    ShowCacheInfo(CacheInfo),
    ShowError { message: String, debug_message: String, show_debug: bool },
}

/// A read-only projection of the cache for display: the rendered time of the
/// last update, whether the entry is fresh, and the configured TTL.
#[derive(Debug, Clone, PartialEq)]
pub struct CacheInfo {
    pub last_updated: Option<String>,
    pub is_fresh: bool,
    pub ttl_minutes: u64,
}

/// One entry of the command menu.
#[derive(Debug, Clone)]
pub struct Command {
    pub id: String,
    pub label: String,
    pub shortcut: Option<char>,
}

/// The full state of the interactive UI: the active modal state, the menu
/// and theme selections with their scroll windows, the model-table scroll
/// offset, the spinner phase, the action to hand back on exit, and a theme
/// change waiting to be applied in place.
pub struct AppStateManager {
    pub state: AppState,
    pub selected_command: usize,
    pub command_scroll_offset: usize,
    pub selected_theme: usize,
    pub theme_scroll_offset: usize,
    pub model_scroll_offset: usize,
    pub commands: Vec<Command>,
    pub themes: Vec<String>,
    pub action_taken: Option<String>,
    pub spinner_state: usize,
    pub pending_theme_change: Option<Theme>,
}

/// The number of menu entries.
pub open spec fn command_count() -> int {
    6
}

/// The number of selectable themes.
pub open spec fn theme_count() -> int {
    10
}

/// The number of spinner phases.
pub open spec fn spinner_phases() -> int {
    10
}

/// The identifier of each menu entry, in menu order.
pub open spec fn command_id_at(k: int) -> Seq<char> {
    if k == 0 {
        "refresh"@
    } else if k == 1 {
        "theme"@
    } else if k == 2 {
        "reconfigure"@
    } else if k == 3 {
        "cache"@
    } else if k == 4 {
        "help"@
    } else {
        "quit"@
    }
}

/// The shortcut letter of each menu entry, in menu order.
pub open spec fn command_shortcut_at(k: int) -> char {
    if k == 0 {
        'r'
    } else if k == 1 {
        't'
    } else if k == 2 {
        'c'
    } else if k == 3 {
        's'
    } else if k == 4 {
        'h'
    } else {
        'q'
    }
}

/// The name of each selectable theme, in list order.
pub open spec fn theme_name_at(k: int) -> Seq<char> {
    if k == 0 {
        "dark"@
    } else if k == 1 {
        "dracula"@
    } else if k == 2 {
        "nord"@
    } else if k == 3 {
        "monokai"@
    } else if k == 4 {
        "gruvbox"@
    } else if k == 5 {
        "catppuccin"@
    } else if k == 6 {
        "onedark"@
    } else if k == 7 {
        "tokyonight"@
    } else if k == 8 {
        "solarized"@
    } else {
        "kanagawa"@
    }
}

/// The spinner glyph of each phase.
pub open spec fn spec_spinner_char(k: int) -> char {
    if k == 0 {
        '⠋'
    } else if k == 1 {
        '⠙'
    } else if k == 2 {
        '⠹'
    } else if k == 3 {
        '⠸'
    } else if k == 4 {
        '⠼'
    } else if k == 5 {
        '⠴'
    } else if k == 6 {
        '⠦'
    } else if k == 7 {
        '⠧'
    } else if k == 8 {
        '⠇'
    } else {
        '⠏'
    }
}

impl AppStateManager {
    /// The structural invariant of the UI state: the menu and theme lists
    /// hold the fixed entries, and every selection, scroll offset and
    /// spinner phase is in range.
    pub open spec fn wf(&self) -> bool {
        &&& self.commands@.len() == command_count()
        &&& forall|k: int|
            0 <= k < command_count() ==> (#[trigger] self.commands@[k]).id@ == command_id_at(k)
        &&& forall|k: int|
            0 <= k < command_count() ==> (#[trigger] self.commands@[k]).shortcut == Some(
                command_shortcut_at(k),
            )
        &&& self.themes@.len() == theme_count()
        &&& forall|k: int|
            0 <= k < theme_count() ==> (#[trigger] self.themes@[k])@ == theme_name_at(k)
        &&& self.selected_command < command_count()
        &&& self.command_scroll_offset < command_count()
        &&& self.selected_theme < theme_count()
        &&& self.theme_scroll_offset < theme_count()
        &&& self.spinner_state < spinner_phases()
    }

    /// A fresh UI state: the dashboard, with nothing selected, nothing
    /// scrolled, no pending action and no pending theme change.
    pub fn new() -> (r: Self)
        ensures
            r.wf(),
            r.state is Dashboard,
            r.selected_command == 0,
            r.command_scroll_offset == 0,
            r.selected_theme == 0,
            r.theme_scroll_offset == 0,
            r.model_scroll_offset == 0,
            r.action_taken is None,
            r.spinner_state == 0,
            r.pending_theme_change is None,
    {
        let mut commands: Vec<Command> = Vec::new();
        commands.push(
            Command { id: "refresh".to_owned(), label: "Refresh Data".to_owned(), shortcut: Some('r') },
        );
        commands.push(
            Command { id: "theme".to_owned(), label: "Change Theme".to_owned(), shortcut: Some('t') },
        );
        commands.push(
            Command {
                id: "reconfigure".to_owned(),
                label: "Reconfigure".to_owned(),
                shortcut: Some('c'),
            },
        );
        commands.push(
            Command { id: "cache".to_owned(), label: "Cache Status".to_owned(), shortcut: Some('s') },
        );
        commands.push(
            Command { id: "help".to_owned(), label: "Help".to_owned(), shortcut: Some('h') },
        );
        commands.push(
            Command { id: "quit".to_owned(), label: "Quit".to_owned(), shortcut: Some('q') },
        );
        let mut themes: Vec<String> = Vec::new();
        themes.push("dark".to_owned());
        themes.push("dracula".to_owned());
        themes.push("nord".to_owned());
        themes.push("monokai".to_owned());
        themes.push("gruvbox".to_owned());
        themes.push("catppuccin".to_owned());
        themes.push("onedark".to_owned());
        themes.push("tokyonight".to_owned());
        themes.push("solarized".to_owned());
        themes.push("kanagawa".to_owned());
        AppStateManager {
            state: AppState::Dashboard,
            selected_command: 0,
            command_scroll_offset: 0,
            selected_theme: 0,
            theme_scroll_offset: 0,
            model_scroll_offset: 0,
            commands,
            themes,
            action_taken: None,
            spinner_state: 0,
            pending_theme_change: None,
        }
    }

    /// Moves the menu selection down one entry, wrapping at the end, and
    /// keeps it inside the five-line scroll window.
    pub fn next_command(&mut self)
        requires
            old(self).wf(),
        ensures
            final(self).wf(),
            final(self).selected_command == (old(self).selected_command + 1) % command_count(),
            final(self).command_scroll_offset == spec_adjusted_scroll(
                (old(self).selected_command + 1) % command_count(),
                old(self).command_scroll_offset as int,
                command_count(),
                5,
            ),
            unchanged_but_command_selection(old(self), final(self)),
    {
        self.selected_command = (self.selected_command + 1) % self.commands.len();
        self.adjust_command_scroll(5);
    }

    /// Moves the menu selection up one entry, wrapping at the start, and
    /// keeps it inside the five-line scroll window.
    pub fn previous_command(&mut self)
        requires
            old(self).wf(),
        ensures
            final(self).wf(),
            final(self).selected_command == (old(self).selected_command + command_count() - 1) % command_count(),
            final(self).command_scroll_offset == spec_adjusted_scroll(
                (old(self).selected_command + command_count() - 1) % command_count(),
                old(self).command_scroll_offset as int,
                command_count(),
                5,
            ),
            unchanged_but_command_selection(old(self), final(self)),
    {
        if self.selected_command == 0 {
            self.selected_command = self.commands.len() - 1;
        } else {
            self.selected_command = self.selected_command - 1;
        }
        self.adjust_command_scroll(5);
    }

    /// Slides the menu scroll window so the selection stays visible.
    fn adjust_command_scroll(&mut self, visible_count: usize)
        requires
            old(self).wf(),
            1 <= visible_count <= 100,
        ensures
            final(self).wf(),
            final(self).command_scroll_offset == spec_adjusted_scroll(
                old(self).selected_command as int,
                old(self).command_scroll_offset as int,
                command_count(),
                visible_count as int,
            ),
            final(self).selected_command == old(self).selected_command,
            unchanged_but_command_selection(old(self), final(self)),
    {
        if self.commands.len() > visible_count {
            if self.selected_command >= self.command_scroll_offset + visible_count {
                self.command_scroll_offset = self.selected_command - visible_count + 1;
            } else if self.selected_command < self.command_scroll_offset {
                self.command_scroll_offset = self.selected_command;
            }
        } else {
            self.command_scroll_offset = 0;
        }
    }

    /// Moves the theme selection down one entry, wrapping at the end, and
    /// keeps it inside the five-line scroll window.
    pub fn next_theme(&mut self)
        requires
            old(self).wf(),
        ensures
            final(self).wf(),
            final(self).selected_theme == (old(self).selected_theme + 1) % theme_count(),
            final(self).theme_scroll_offset == spec_adjusted_scroll(
                (old(self).selected_theme + 1) % theme_count(),
                old(self).theme_scroll_offset as int,
                theme_count(),
                5,
            ),
            unchanged_but_theme_selection(old(self), final(self)),
    {
        self.selected_theme = (self.selected_theme + 1) % self.themes.len();
        self.adjust_theme_scroll(5);
    }

    /// Moves the theme selection up one entry, wrapping at the start, and
    /// keeps it inside the five-line scroll window.
    pub fn previous_theme(&mut self)
        requires
            old(self).wf(),
        ensures
            final(self).wf(),
            final(self).selected_theme == (old(self).selected_theme + theme_count() - 1) % theme_count(),
            final(self).theme_scroll_offset == spec_adjusted_scroll(
                (old(self).selected_theme + theme_count() - 1) % theme_count(),
                old(self).theme_scroll_offset as int,
                theme_count(),
                5,
            ),
            unchanged_but_theme_selection(old(self), final(self)),
    {
        if self.selected_theme == 0 {
            self.selected_theme = self.themes.len() - 1;
        } else {
            self.selected_theme = self.selected_theme - 1;
        }
        self.adjust_theme_scroll(5);
    }

    /// Slides the theme scroll window so the selection stays visible.
    fn adjust_theme_scroll(&mut self, visible_count: usize)
        requires
            old(self).wf(),
            1 <= visible_count <= 100,
        ensures
            final(self).wf(),
            final(self).theme_scroll_offset == spec_adjusted_scroll(
                old(self).selected_theme as int,
                old(self).theme_scroll_offset as int,
                theme_count(),
                visible_count as int,
            ),
            final(self).selected_theme == old(self).selected_theme,
            unchanged_but_theme_selection(old(self), final(self)),
    {
        if self.themes.len() > visible_count {
            if self.selected_theme >= self.theme_scroll_offset + visible_count {
                self.theme_scroll_offset = self.selected_theme - visible_count + 1;
            } else if self.selected_theme < self.theme_scroll_offset {
                self.theme_scroll_offset = self.selected_theme;
            }
        } else {
            self.theme_scroll_offset = 0;
        }
    }

    /// Scrolls the model table down one row, but never past the last
    /// windowful.
    pub fn scroll_models_down(&mut self, total_models: usize, visible_count: usize)
        ensures
            final(self).model_scroll_offset == if old(self).model_scroll_offset + visible_count
                < total_models {
                old(self).model_scroll_offset + 1
            } else {
                old(self).model_scroll_offset as int
            },
            unchanged_but_model_scroll(old(self), final(self)),
            old(self).wf() ==> final(self).wf(),
    {
        if self.model_scroll_offset < total_models && visible_count < total_models
            - self.model_scroll_offset {
            self.model_scroll_offset = self.model_scroll_offset + 1;
        }
    }

    /// Scrolls the model table up one row, stopping at the top.
    pub fn scroll_models_up(&mut self)
        ensures
            final(self).model_scroll_offset == if old(self).model_scroll_offset > 0 {
                old(self).model_scroll_offset - 1
            } else {
                0
            },
            unchanged_but_model_scroll(old(self), final(self)),
            old(self).wf() ==> final(self).wf(),
    {
        if self.model_scroll_offset > 0 {
            self.model_scroll_offset = self.model_scroll_offset - 1;
        }
    }

    /// The identifier of the selected menu entry.
    pub fn get_selected_command_id(&self) -> (r: &str)
        requires
            self.wf(),
        ensures
            r@ == command_id_at(self.selected_command as int),
    {
        let c: &Command = &self.commands[self.selected_command];
        c.id.as_str()
    }

    /// Advances the loading spinner to its next phase, wrapping.
    pub fn advance_spinner(&mut self)
        requires
            old(self).wf(),
        ensures
            final(self).wf(),
            final(self).spinner_state == (old(self).spinner_state + 1) % spinner_phases(),
            unchanged_but_spinner(old(self), final(self)),
    {
        self.spinner_state = (self.spinner_state + 1) % 10;
    }

    /// The spinner glyph of the current phase.
    pub fn get_spinner_char(&self) -> (r: char)
        requires
            self.wf(),
        ensures
            r == spec_spinner_char(self.spinner_state as int),
    {
        if self.spinner_state == 0 {
            '⠋'
        } else if self.spinner_state == 1 {
            '⠙'
        } else if self.spinner_state == 2 {
            '⠹'
        } else if self.spinner_state == 3 {
            '⠸'
        } else if self.spinner_state == 4 {
            '⠼'
        } else if self.spinner_state == 5 {
            '⠴'
        } else if self.spinner_state == 6 {
            '⠦'
        } else if self.spinner_state == 7 {
            '⠧'
        } else if self.spinner_state == 8 {
            '⠇'
        } else {
            '⠏'
        }
    }
}

impl Default for AppStateManager {
    /// The same fresh UI state `new` builds.
    fn default() -> (r: Self)
        ensures
            r.wf(),
            r.state is Dashboard,
            r.action_taken is None,
    {
        AppStateManager::new()
    }
}

/// The six command identifiers are pairwise distinct.
pub proof fn lemma_command_ids_distinct()
    ensures
        "refresh"@ != "theme"@,
        "refresh"@ != "reconfigure"@,
        "refresh"@ != "cache"@,
        "refresh"@ != "help"@,
        "refresh"@ != "quit"@,
        "theme"@ != "reconfigure"@,
        "theme"@ != "cache"@,
        "theme"@ != "help"@,
        "theme"@ != "quit"@,
        "reconfigure"@ != "cache"@,
        "reconfigure"@ != "help"@,
        "reconfigure"@ != "quit"@,
        "cache"@ != "help"@,
        "cache"@ != "quit"@,
        "help"@ != "quit"@,
{
    reveal_strlit("refresh");
    reveal_strlit("theme");
    reveal_strlit("reconfigure");
    reveal_strlit("cache");
    reveal_strlit("help");
    reveal_strlit("quit");
    assert("refresh"@.len() == 7);
    assert("theme"@.len() == 5);
    assert("reconfigure"@.len() == 11);
    assert("cache"@.len() == 5);
    assert("help"@.len() == 4);
    assert("quit"@.len() == 4);
    assert("theme"@[0] == 't');
    assert("cache"@[0] == 'c');
    assert("help"@[0] == 'h');
    assert("quit"@[0] == 'q');
    assert("theme"@ != "cache"@);
    assert("help"@ != "quit"@);
}

/// The scroll offset after sliding a window of `visible` lines over `total`
/// entries so that `selected` is visible.
pub open spec fn spec_adjusted_scroll(selected: int, offset: int, total: int, visible: int) -> int {
    if total > visible {
        if selected >= offset + visible {
            selected - visible + 1
        } else if selected < offset {
            selected
        } else {
            offset
        }
    } else {
        0
    }
}

/// Every field except the menu selection and its scroll window is the same.
pub open spec fn unchanged_but_command_selection(a: &AppStateManager, b: &AppStateManager) -> bool {
    &&& b.state == a.state
    &&& b.selected_theme == a.selected_theme
    &&& b.theme_scroll_offset == a.theme_scroll_offset
    &&& b.model_scroll_offset == a.model_scroll_offset
    &&& b.commands == a.commands
    &&& b.themes == a.themes
    &&& b.action_taken == a.action_taken
    &&& b.spinner_state == a.spinner_state
    &&& b.pending_theme_change == a.pending_theme_change
}

/// Every field except the theme selection and its scroll window is the same.
pub open spec fn unchanged_but_theme_selection(a: &AppStateManager, b: &AppStateManager) -> bool {
    &&& b.state == a.state
    &&& b.selected_command == a.selected_command
    &&& b.command_scroll_offset == a.command_scroll_offset
    &&& b.model_scroll_offset == a.model_scroll_offset
    &&& b.commands == a.commands
    &&& b.themes == a.themes
    &&& b.action_taken == a.action_taken
    &&& b.spinner_state == a.spinner_state
    &&& b.pending_theme_change == a.pending_theme_change
}

/// Every field except the model-table scroll offset is the same.
pub open spec fn unchanged_but_model_scroll(a: &AppStateManager, b: &AppStateManager) -> bool {
    &&& b.state == a.state
    &&& b.selected_command == a.selected_command
    &&& b.command_scroll_offset == a.command_scroll_offset
    &&& b.selected_theme == a.selected_theme
    &&& b.theme_scroll_offset == a.theme_scroll_offset
    &&& b.commands == a.commands
    &&& b.themes == a.themes
    &&& b.action_taken == a.action_taken
    &&& b.spinner_state == a.spinner_state
    &&& b.pending_theme_change == a.pending_theme_change
}

/// Every field except the spinner phase is the same.
pub open spec fn unchanged_but_spinner(a: &AppStateManager, b: &AppStateManager) -> bool {
    &&& b.state == a.state
    &&& b.selected_command == a.selected_command
    &&& b.command_scroll_offset == a.command_scroll_offset
    &&& b.selected_theme == a.selected_theme
    &&& b.theme_scroll_offset == a.theme_scroll_offset
    &&& b.model_scroll_offset == a.model_scroll_offset
    &&& b.commands == a.commands
    &&& b.themes == a.themes
    &&& b.action_taken == a.action_taken
    &&& b.pending_theme_change == a.pending_theme_change
}

} // verus!
