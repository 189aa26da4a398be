//! The interactive UI: modal state, event handling, asynchronous result
//! delivery, the decisions of the adaptive render loop, and the measurable
//! style rules.
//!
//! This file itself holds a minimal one-shot dashboard controller (`App`):
//! a reduced interaction model in which a command that needs outside work
//! ends the session and hands the chosen action back to the caller as a
//! token (`cache` or `quit`), while the others open their modal states.

pub mod async_handler;
pub mod events;
pub mod scheduler;
pub mod state;
pub mod styles;

use vstd::prelude::*;
use crate::clock;
use crate::models::{spec_days_in_month, Date};
use crate::text::str_eq;
use self::async_handler::ErrorInfo;
use self::state::command_id_at;

verus! {

/// The modal states of the one-shot dashboard controller.
#[derive(Debug, Clone, PartialEq)]
pub enum AppState {
    Dashboard,
    CommandMenu,
    ThemeSelector,
    ConfirmRefresh,
    ConfirmReconfigure,
    ShowHelp,
}

/// One entry of the one-shot controller's command menu.
#[derive(Debug, Clone)]
pub struct Command {
    pub id: String,
    pub label: String,
    pub shortcut: Option<char>,
}

/// The one-shot dashboard controller: a modal state, the menu and theme
/// selections, the model-table scroll offset, and the action token handed
/// back when the session ends.
pub struct App {
    pub state: AppState,
    pub selected_command: usize,
    pub selected_theme: usize,
    pub model_scroll_offset: usize,
    pub commands: Vec<Command>,
    pub themes: Vec<String>,
    pub action_taken: Option<String>,
}

/// The name of each selectable theme of the one-shot controller.
pub open spec fn app_theme_name_at(k: int) -> Seq<char> {
    if k == 0 {
        "dark"@
    } else if k == 1 {
        "light"@
    } else if k == 2 {
        "dracula"@
    } else if k == 3 {
        "nord"@
    } else if k == 4 {
        "monokai"@
    } else {
        "gruvbox"@
    }
}

impl App {
    /// The structural invariant: six fixed commands, six fixed themes, and
    /// selections in range.
    pub open spec fn wf(&self) -> bool {
        &&& self.commands@.len() == 6
        &&& forall|k: int|
            0 <= k < 6 ==> (#[trigger] self.commands@[k]).id@ == command_id_at(k)
        &&& self.themes@.len() == 6
        &&& forall|k: int| 0 <= k < 6 ==> (#[trigger] self.themes@[k])@ == app_theme_name_at(k)
        &&& self.selected_command < 6
        &&& self.selected_theme < 6
    }

    /// A fresh controller on the dashboard with nothing selected.
    pub fn new() -> (r: Self)
        ensures
            r.wf(),
            r.state is Dashboard,
            r.selected_command == 0,
            r.selected_theme == 0,
            r.model_scroll_offset == 0,
            r.action_taken is None,
    {
        let mut commands: Vec<Command> = Vec::new();
        commands.push(
            Command { id: "refresh".to_owned(), label: "Refresh Data".to_owned(), shortcut: Some('r') },
        );
        commands.push(
            Command { id: "theme".to_owned(), label: "Change Theme".to_owned(), shortcut: Some('t') },
        );
        commands.push(
            Command {
                id: "reconfigure".to_owned(),
                label: "Reconfigure".to_owned(),
                shortcut: Some('c'),
            },
        );
        commands.push(
            Command { id: "cache".to_owned(), label: "Cache Status".to_owned(), shortcut: Some('s') },
        );
        commands.push(
            Command { id: "help".to_owned(), label: "Help".to_owned(), shortcut: Some('h') },
        );
        commands.push(
            Command { id: "quit".to_owned(), label: "Quit".to_owned(), shortcut: Some('q') },
        );
        let mut themes: Vec<String> = Vec::new();
        themes.push("dark".to_owned());
        themes.push("light".to_owned());
        themes.push("dracula".to_owned());
        themes.push("nord".to_owned());
        themes.push("monokai".to_owned());
        themes.push("gruvbox".to_owned());
        App {
            state: AppState::Dashboard,
            selected_command: 0,
            selected_theme: 0,
            model_scroll_offset: 0,
            commands,
            themes,
            action_taken: None,
        }
    }

    /// Moves the menu selection down one entry, wrapping at the end.
    pub fn next_command(&mut self)
        requires
            old(self).wf(),
        ensures
            final(self).wf(),
            final(self).selected_command == (old(self).selected_command + 1) % 6,
            app_unchanged_but_command(old(self), final(self)),
    {
        self.selected_command = (self.selected_command + 1) % self.commands.len();
    }

    /// Moves the menu selection up one entry, wrapping at the start.
    pub fn previous_command(&mut self)
        requires
            old(self).wf(),
        ensures
            final(self).wf(),
            final(self).selected_command == (old(self).selected_command + 5) % 6,
            app_unchanged_but_command(old(self), final(self)),
    {
        if self.selected_command == 0 {
            self.selected_command = self.commands.len() - 1;
        } else {
            self.selected_command = self.selected_command - 1;
        }
    }

    /// Moves the theme selection down one entry, wrapping at the end.
    pub fn next_theme(&mut self)
        requires
            old(self).wf(),
        ensures
            final(self).wf(),
            final(self).selected_theme == (old(self).selected_theme + 1) % 6,
            app_unchanged_but_theme(old(self), final(self)),
    {
        self.selected_theme = (self.selected_theme + 1) % self.themes.len();
    }

    /// Moves the theme selection up one entry, wrapping at the start.
    pub fn previous_theme(&mut self)
        requires
            old(self).wf(),
        ensures
            final(self).wf(),
            final(self).selected_theme == (old(self).selected_theme + 5) % 6,
            app_unchanged_but_theme(old(self), final(self)),
    {
        if self.selected_theme == 0 {
            self.selected_theme = self.themes.len() - 1;
        } else {
            self.selected_theme = self.selected_theme - 1;
        }
    }

    /// The identifier of the selected menu entry.
    pub fn get_selected_command_id(&self) -> (r: &str)
        requires
            self.wf(),
        ensures
            r@ == command_id_at(self.selected_command as int),
    {
        let c: &Command = &self.commands[self.selected_command];
        c.id.as_str()
    }

    /// Scrolls the model table down one row, but never past the last
    /// windowful.
    pub fn scroll_models_down(&mut self, total_models: usize, visible_count: usize)
        ensures
            final(self).model_scroll_offset == if old(self).model_scroll_offset + visible_count
                < total_models {
                old(self).model_scroll_offset + 1
            } else {
                old(self).model_scroll_offset as int
            },
            app_unchanged_but_scroll(old(self), final(self)),
            old(self).wf() ==> final(self).wf(),
    {
        if self.model_scroll_offset < total_models && visible_count < total_models
            - self.model_scroll_offset {
            self.model_scroll_offset = self.model_scroll_offset + 1;
        }
    }

    /// Scrolls the model table up one row, stopping at the top.
    pub fn scroll_models_up(&mut self)
        ensures
            final(self).model_scroll_offset == if old(self).model_scroll_offset > 0 {
                old(self).model_scroll_offset - 1
            } else {
                0
            },
            app_unchanged_but_scroll(old(self), final(self)),
            old(self).wf() ==> final(self).wf(),
    {
        if self.model_scroll_offset > 0 {
            self.model_scroll_offset = self.model_scroll_offset - 1;
        }
    }
}

/// Every field except the menu selection is the same.
pub open spec fn app_unchanged_but_command(a: &App, b: &App) -> bool {
    &&& b.state == a.state
    &&& b.selected_theme == a.selected_theme
    &&& b.model_scroll_offset == a.model_scroll_offset
    &&& b.commands == a.commands
    &&& b.themes == a.themes
    &&& b.action_taken == a.action_taken
}

/// Every field except the theme selection is the same.
pub open spec fn app_unchanged_but_theme(a: &App, b: &App) -> bool {
    &&& b.state == a.state
    &&& b.selected_command == a.selected_command
    &&& b.model_scroll_offset == a.model_scroll_offset
    &&& b.commands == a.commands
    &&& b.themes == a.themes
    &&& b.action_taken == a.action_taken
}

/// Every field except the model-table scroll offset is the same.
pub open spec fn app_unchanged_but_scroll(a: &App, b: &App) -> bool {
    &&& b.state == a.state
    &&& b.selected_command == a.selected_command
    &&& b.selected_theme == a.selected_theme
    &&& b.commands == a.commands
    &&& b.themes == a.themes
    &&& b.action_taken == a.action_taken
}

/// The modal state entered when the one-shot controller executes the
/// command at index `sel`; commands that need outside work keep the state.
pub open spec fn app_exec_state(sel: int, prev: AppState) -> AppState {
    if sel == 0 {
        AppState::ConfirmRefresh
    } else if sel == 1 {
        AppState::ThemeSelector
    } else if sel == 2 {
        AppState::ConfirmReconfigure
    } else if sel == 4 {
        AppState::ShowHelp
    } else {
        prev
    }
}

/// Executes the selected command of the one-shot controller: the refresh,
/// theme and reconfigure commands open their modal states in place; the
/// cache and quit commands record their action token so the caller can end
/// the session and perform it.
pub fn execute_command(app: &mut App)
    requires
        old(app).wf(),
    ensures
        final(app).wf(),
        final(app).state == app_exec_state(old(app).selected_command as int, old(app).state),
        final(app).selected_command == old(app).selected_command,
        final(app).selected_theme == old(app).selected_theme,
        final(app).model_scroll_offset == old(app).model_scroll_offset,
        final(app).commands == old(app).commands,
        final(app).themes == old(app).themes,
        (if old(app).selected_command == 3 {
            final(app).action_taken matches Some(s) && s@ == "cache"@
        } else if old(app).selected_command == 5 {
            final(app).action_taken matches Some(s) && s@ == "quit"@
        } else {
            final(app).action_taken == old(app).action_taken
        }),
{
    proof {
        self::state::lemma_command_ids_distinct();
    }
    let id = app.get_selected_command_id();
    if str_eq(id, "refresh") {
        app.state = AppState::ConfirmRefresh;
    } else if str_eq(id, "theme") {
        app.state = AppState::ThemeSelector;
    } else if str_eq(id, "reconfigure") {
        app.state = AppState::ConfirmReconfigure;
    } else if str_eq(id, "cache") {
        app.action_taken = Some("cache".to_owned());
    } else if str_eq(id, "help") {
        app.state = AppState::ShowHelp;
    } else if str_eq(id, "quit") {
        app.action_taken = Some("quit".to_owned());
    }
}

/// The short, user-facing text of a failure.
pub fn format_error_for_user(error: &ErrorInfo) -> (r: String)
    ensures
        r@ == error.message@,
{
    error.message.clone()
}

/// The full diagnostic text of a failure.
pub fn format_error_debug(error: &ErrorInfo) -> (r: String)
    ensures
        r@ == error.debug_message@,
{
    error.debug_message.clone()
}

/// The number of days in the current UTC month, for the month-progress
/// display.
pub fn days_in_current_month() -> (r: u32)
    ensures
        28 <= r <= 31,
        exists|d: Date|
            1 <= #[trigger] d.month <= 12 && 0 <= d.year && r == spec_days_in_month(
                d.year as int,
                d.month as int,
            ),
{
    let today = clock::today_utc();
    if today.year >= 0 {
        crate::models::days_in_month(today.year, today.month)
    } else {
        proof {
            let d = Date { year: 0, month: 4, day: 1 };
            assert(1 <= d.month <= 12 && 0 <= d.year && 30 == spec_days_in_month(
                d.year as int,
                d.month as int,
            ));
        }
        30
    }
}

} // verus!
