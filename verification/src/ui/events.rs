//! Keyboard event handling: a pure state machine. Every event is dispatched
//! through exactly one state-specific handler chosen by the active modal
//! state; the handler mutates the UI state and returns the single action the
//! shell must perform (keep running, exit, or spawn background work).

use vstd::prelude::*;
use crate::models::{theme_of_name, Theme};
use crate::text::{lower_code, str_eq};
use super::state::{
    command_count, command_id_at, command_shortcut_at, spec_adjusted_scroll, theme_count,
    theme_name_at, unchanged_but_command_selection, unchanged_but_theme_selection, AppState,
    AppStateManager,
};

verus! {

/// A keyboard event, reduced to what the state machine reads.
#[derive(Debug, Clone, Copy, PartialEq, Eq, Structural)]
pub enum Key {
    Char(char),
    Up,
    Down,
    Enter,
    Esc,
    Other,
}

/// What the shell must do after an event was handled: nothing, leave the
/// loop, or spawn one piece of background work.
#[derive(Debug, Clone, Copy, PartialEq, Eq, Structural)]
pub enum UiAction {
    Stay,
    Exit,
    StartRefresh,
    StartCacheInfo,
}

/// Processes keyboard events against the UI state.
pub struct EventHandler;

/// Every field other than the modal state, the pending action and the menu
/// selection is the same.
pub open spec fn core_unchanged(a: &AppStateManager, b: &AppStateManager) -> bool {
    &&& b.command_scroll_offset == a.command_scroll_offset
    &&& b.selected_theme == a.selected_theme
    &&& b.theme_scroll_offset == a.theme_scroll_offset
    &&& b.model_scroll_offset == a.model_scroll_offset
    &&& b.commands == a.commands
    &&& b.themes == a.themes
    &&& b.spinner_state == a.spinner_state
    &&& b.pending_theme_change == a.pending_theme_change
}

/// Only the modal state may differ.
pub open spec fn same_except_state(a: &AppStateManager, b: &AppStateManager) -> bool {
    &&& core_unchanged(a, b)
    &&& b.selected_command == a.selected_command
    &&& b.action_taken == a.action_taken
}

/// The pending action holds the token `quit`.
pub open spec fn action_is_quit(b: &AppStateManager) -> bool {
    b.action_taken matches Some(s) && s@ == "quit"@
}

/// The pending action holds the token `reconfigure`.
pub open spec fn action_is_reconfigure(b: &AppStateManager) -> bool {
    b.action_taken matches Some(s) && s@ == "reconfigure"@
}

/// The modal state a dashboard key leads to.
pub open spec fn dashboard_state_after(key: Key) -> AppState {
    match key {
        Key::Char(c) => {
            if c == '/' || c == ':' {
                AppState::CommandMenu
            } else if c == 'r' {
                AppState::ConfirmRefresh
            } else if c == 't' {
                AppState::ThemeSelector
            } else if c == 'h' {
                AppState::ShowHelp
            } else {
                AppState::Dashboard
            }
        },
        _ => AppState::Dashboard,
    }
}

/// Handling a key on the dashboard: menu, refresh, theme and help keys open
/// their modal states; `q` asks to exit with the `quit` token; the arrow
/// keys scroll the model table; everything else is ignored.
pub open spec fn dashboard_step(
    a: &AppStateManager,
    b: &AppStateManager,
    key: Key,
    total_models: int,
    r: UiAction,
) -> bool {
    &&& b.state == dashboard_state_after(key)
    &&& b.selected_command == a.selected_command
    &&& b.command_scroll_offset == a.command_scroll_offset
    &&& b.selected_theme == a.selected_theme
    &&& b.theme_scroll_offset == a.theme_scroll_offset
    &&& b.commands == a.commands
    &&& b.themes == a.themes
    &&& b.spinner_state == a.spinner_state
    &&& b.pending_theme_change == a.pending_theme_change
    &&& b.model_scroll_offset == (if key == Key::Down || key == Key::Char('j') {
        if a.model_scroll_offset + 8 < total_models {
            a.model_scroll_offset + 1
        } else {
            a.model_scroll_offset as int
        }
    } else if key == Key::Up || key == Key::Char('k') {
        if a.model_scroll_offset > 0 {
            a.model_scroll_offset - 1
        } else {
            0
        }
    } else {
        a.model_scroll_offset as int
    })
    &&& (if key == Key::Char('q') {
        action_is_quit(b) && r == UiAction::Exit
    } else {
        b.action_taken == a.action_taken && r == UiAction::Stay
    })
}

/// The modal state entered when the command at index `sel` is executed.
pub open spec fn exec_cmd_state(sel: int, prev: AppState) -> AppState {
    if sel == 0 {
        AppState::ConfirmRefresh
    } else if sel == 1 {
        AppState::ThemeSelector
    } else if sel == 2 {
        AppState::ConfirmReconfigure
    } else if sel == 3 {
        AppState::LoadingCache
    } else if sel == 4 {
        AppState::ShowHelp
    } else {
        prev
    }
}

/// Executing the menu command at index `sel`: the first five open their
/// modal states (inspecting the cache also spawns the background read); the
/// quit command asks to exit with the `quit` token.
pub open spec fn exec_cmd_step(
    a: &AppStateManager,
    b: &AppStateManager,
    sel: int,
    r: UiAction,
) -> bool {
    &&& core_unchanged(a, b)
    &&& b.selected_command == a.selected_command
    &&& b.state == exec_cmd_state(sel, a.state)
    &&& (if sel == 5 {
        action_is_quit(b) && r == UiAction::Exit
    } else {
        b.action_taken == a.action_taken && r == (if sel == 3 {
            UiAction::StartCacheInfo
        } else {
            UiAction::Stay
        })
    })
}

/// The index of the menu command whose shortcut letter is `c` (compared
/// with ASCII case folded), or -1 if no command carries it.
pub open spec fn shortcut_pos(c: char) -> int {
    if lower_code(c) == 'r' as u32 {
        0
    } else if lower_code(c) == 't' as u32 {
        1
    } else if lower_code(c) == 'c' as u32 {
        2
    } else if lower_code(c) == 's' as u32 {
        3
    } else if lower_code(c) == 'h' as u32 {
        4
    } else if lower_code(c) == 'q' as u32 {
        5
    } else {
        -1
    }
}

/// Handling a key in the command menu: escape returns to the dashboard, the
/// arrow keys move the selection, enter executes the selected command, and
/// a letter jumps to the command carrying it as shortcut and executes it.
pub open spec fn menu_step(
    a: &AppStateManager,
    b: &AppStateManager,
    key: Key,
    r: UiAction,
) -> bool {
    match key {
        Key::Esc => same_except_state(a, b) && b.state is Dashboard && r == UiAction::Stay,
        Key::Down => menu_moved(a, b, 1) && r == UiAction::Stay,
        Key::Up => menu_moved(a, b, command_count() - 1) && r == UiAction::Stay,
        Key::Enter => exec_cmd_step(a, b, a.selected_command as int, r),
        Key::Char(c) => {
            if c == 'j' {
                menu_moved(a, b, 1) && r == UiAction::Stay
            } else if c == 'k' {
                menu_moved(a, b, command_count() - 1) && r == UiAction::Stay
            } else if shortcut_pos(c) >= 0 {
                b.selected_command == shortcut_pos(c) && exec_cmd_selected(a, b, shortcut_pos(c), r)
            } else {
                b == a && r == UiAction::Stay
            }
        },
        _ => b == a && r == UiAction::Stay,
    }
}

/// The menu selection moved by `delta` entries (wrapping), with the scroll
/// window adjusted; nothing else changed.
pub open spec fn menu_moved(a: &AppStateManager, b: &AppStateManager, delta: int) -> bool {
    &&& unchanged_but_command_selection(a, b)
    &&& b.selected_command == (a.selected_command + delta) % command_count()
    &&& b.command_scroll_offset == spec_adjusted_scroll(
        (a.selected_command + delta) % command_count(),
        a.command_scroll_offset as int,
        command_count(),
        5,
    )
}

/// Like `exec_cmd_step`, but the selection itself moved to `sel` first.
pub open spec fn exec_cmd_selected(
    a: &AppStateManager,
    b: &AppStateManager,
    sel: int,
    r: UiAction,
) -> bool {
    &&& core_unchanged(a, b)
    &&& b.state == exec_cmd_state(sel, a.state)
    &&& (if sel == 5 {
        action_is_quit(b) && r == UiAction::Exit
    } else {
        b.action_taken == a.action_taken && r == (if sel == 3 {
            UiAction::StartCacheInfo
        } else {
            UiAction::Stay
        })
    })
}

/// Handling a key in the theme selector: escape cancels, the arrow keys
/// move the selection, and enter applies the selected theme in place (the
/// change is recorded as pending) and returns to the dashboard.
pub open spec fn theme_step(
    a: &AppStateManager,
    b: &AppStateManager,
    key: Key,
    r: UiAction,
) -> bool {
    match key {
        Key::Esc => same_except_state(a, b) && b.state is Dashboard && r == UiAction::Stay,
        Key::Down => theme_moved(a, b, 1) && r == UiAction::Stay,
        Key::Up => theme_moved(a, b, theme_count() - 1) && r == UiAction::Stay,
        Key::Enter => {
            &&& b.state is Dashboard
            &&& b.pending_theme_change == Some(
                theme_of_name(theme_name_at(a.selected_theme as int)),
            )
            &&& b.selected_command == a.selected_command
            &&& b.command_scroll_offset == a.command_scroll_offset
            &&& b.selected_theme == a.selected_theme
            &&& b.theme_scroll_offset == a.theme_scroll_offset
            &&& b.model_scroll_offset == a.model_scroll_offset
            &&& b.commands == a.commands
            &&& b.themes == a.themes
            &&& b.action_taken == a.action_taken
            &&& b.spinner_state == a.spinner_state
            &&& r == UiAction::Stay
        },
        Key::Char(c) => {
            if c == 'j' {
                theme_moved(a, b, 1) && r == UiAction::Stay
            } else if c == 'k' {
                theme_moved(a, b, theme_count() - 1) && r == UiAction::Stay
            } else {
                b == a && r == UiAction::Stay
            }
        },
        _ => b == a && r == UiAction::Stay,
    }
}

/// The theme selection moved by `delta` entries (wrapping), with the scroll
/// window adjusted; nothing else changed.
pub open spec fn theme_moved(a: &AppStateManager, b: &AppStateManager, delta: int) -> bool {
    &&& unchanged_but_theme_selection(a, b)
    &&& b.selected_theme == (a.selected_theme + delta) % theme_count()
    &&& b.theme_scroll_offset == spec_adjusted_scroll(
        (a.selected_theme + delta) % theme_count(),
        a.theme_scroll_offset as int,
        theme_count(),
        5,
    )
}

/// Handling a key in the refresh confirmation: `y` or enter starts the
/// background refresh and shows the loading state; `n` or escape declines.
pub open spec fn confirm_refresh_step(
    a: &AppStateManager,
    b: &AppStateManager,
    key: Key,
    r: UiAction,
) -> bool {
    if key == Key::Char('y') || key == Key::Enter {
        same_except_state(a, b) && b.state is LoadingRefresh && r == UiAction::StartRefresh
    } else if key == Key::Char('n') || key == Key::Esc {
        same_except_state(a, b) && b.state is Dashboard && r == UiAction::Stay
    } else {
        b == a && r == UiAction::Stay
    }
}

/// Handling a key in the reconfigure confirmation: `y` or enter asks to
/// exit with the `reconfigure` token; `n` or escape declines.
pub open spec fn confirm_reconfigure_step(
    a: &AppStateManager,
    b: &AppStateManager,
    key: Key,
    r: UiAction,
) -> bool {
    if key == Key::Char('y') || key == Key::Enter {
        &&& core_unchanged(a, b)
        &&& b.selected_command == a.selected_command
        &&& b.state == a.state
        &&& action_is_reconfigure(b)
        &&& r == UiAction::Exit
    } else if key == Key::Char('n') || key == Key::Esc {
        same_except_state(a, b) && b.state is Dashboard && r == UiAction::Stay
    } else {
        b == a && r == UiAction::Stay
    }
}

/// Handling a key in the help dialog: escape or `q` closes it.
pub open spec fn help_step(a: &AppStateManager, b: &AppStateManager, key: Key, r: UiAction) -> bool {
    if key == Key::Esc || key == Key::Char('q') {
        same_except_state(a, b) && b.state is Dashboard && r == UiAction::Stay
    } else {
        b == a && r == UiAction::Stay
    }
}

/// Handling a key while loading: escape detaches the UI and returns to the
/// dashboard; the background task is not cancelled.
pub open spec fn loading_step(
    a: &AppStateManager,
    b: &AppStateManager,
    key: Key,
    r: UiAction,
) -> bool {
    if key == Key::Esc {
        same_except_state(a, b) && b.state is Dashboard && r == UiAction::Stay
    } else {
        b == a && r == UiAction::Stay
    }
}

/// Handling a key in the cache-info dialog: any key closes it.
pub open spec fn cache_info_step(
    a: &AppStateManager,
    b: &AppStateManager,
    r: UiAction,
) -> bool {
    same_except_state(a, b) && b.state is Dashboard && r == UiAction::Stay
}

/// Handling a key in the error dialog: `d` toggles between the short and
/// the full diagnostic text; any other key dismisses the dialog.
pub open spec fn error_step(
    a: &AppStateManager,
    b: &AppStateManager,
    key: Key,
    r: UiAction,
) -> bool {
    if key == Key::Char('d') {
        &&& same_except_state(a, b)
        &&& (a.state matches AppState::ShowError { message, debug_message, show_debug }
            ==> b.state == (AppState::ShowError { message, debug_message, show_debug: !show_debug }))
        &&& r == UiAction::Stay
    } else {
        same_except_state(a, b) && b.state is Dashboard && r == UiAction::Stay
    }
}

/// One key, dispatched through the handler of the active modal state.
pub open spec fn key_press_step(
    a: &AppStateManager,
    b: &AppStateManager,
    key: Key,
    total_models: int,
    r: UiAction,
) -> bool {
    match a.state {
        AppState::Dashboard => dashboard_step(a, b, key, total_models, r),
        AppState::CommandMenu => menu_step(a, b, key, r),
        AppState::ThemeSelector => theme_step(a, b, key, r),
        AppState::ConfirmRefresh => confirm_refresh_step(a, b, key, r),
        AppState::ConfirmReconfigure => confirm_reconfigure_step(a, b, key, r),
        AppState::ShowHelp => help_step(a, b, key, r),
        AppState::LoadingRefresh => loading_step(a, b, key, r),
        AppState::LoadingCache => loading_step(a, b, key, r),
        AppState::ShowCacheInfo(_) => cache_info_step(a, b, r),
        AppState::ShowError { .. } => error_step(a, b, key, r),
    }
}

impl EventHandler {
    /// Dispatches one key press to the handler of the active state.
    pub fn handle_key_press(app: &mut AppStateManager, code: Key, total_models: usize) -> (r:
        UiAction)
        requires
            old(app).wf(),
        ensures
            final(app).wf(),
            key_press_step(old(app), final(app), code, total_models as int, r),
    {
        match &app.state {
            AppState::Dashboard => Self::handle_dashboard(app, code, total_models),
            AppState::CommandMenu => Self::handle_command_menu(app, code),
            AppState::ThemeSelector => Self::handle_theme_selector(app, code),
            AppState::ConfirmRefresh => Self::handle_confirm_refresh(app, code),
            AppState::ConfirmReconfigure => Self::handle_confirm_reconfigure(app, code),
            AppState::ShowHelp => Self::handle_help(app, code),
            AppState::LoadingRefresh => Self::handle_loading(app, code),
            AppState::LoadingCache => Self::handle_loading(app, code),
            AppState::ShowCacheInfo(_) => Self::handle_cache_info(app, code),
            AppState::ShowError { .. } => Self::handle_error(app, code),
        }
    }

    /// Keys on the dashboard.
    pub fn handle_dashboard(app: &mut AppStateManager, code: Key, total_models: usize) -> (r:
        UiAction)
        requires
            old(app).wf(),
            old(app).state is Dashboard,
        ensures
            final(app).wf(),
            dashboard_step(old(app), final(app), code, total_models as int, r),
    {
        match code {
            Key::Char(c) => {
                if c == '/' || c == ':' {
                    app.state = AppState::CommandMenu;
                    UiAction::Stay
                } else if c == 'q' {
                    app.action_taken = Some("quit".to_owned());
                    UiAction::Exit
                } else if c == 'r' {
                    app.state = AppState::ConfirmRefresh;
                    UiAction::Stay
                } else if c == 't' {
                    app.state = AppState::ThemeSelector;
                    UiAction::Stay
                } else if c == 'h' {
                    app.state = AppState::ShowHelp;
                    UiAction::Stay
                } else if c == 'j' {
                    app.scroll_models_down(total_models, 8);
                    UiAction::Stay
                } else if c == 'k' {
                    app.scroll_models_up();
                    UiAction::Stay
                } else {
                    UiAction::Stay
                }
            },
            Key::Down => {
                app.scroll_models_down(total_models, 8);
                UiAction::Stay
            },
            Key::Up => {
                app.scroll_models_up();
                UiAction::Stay
            },
            _ => UiAction::Stay,
        }
    }

    /// Keys in the command menu.
    pub fn handle_command_menu(app: &mut AppStateManager, code: Key) -> (r: UiAction)
        requires
            old(app).wf(),
            old(app).state is CommandMenu,
        ensures
            final(app).wf(),
            menu_step(old(app), final(app), code, r),
    {
        match code {
            Key::Esc => {
                app.state = AppState::Dashboard;
                UiAction::Stay
            },
            Key::Down => {
                app.next_command();
                UiAction::Stay
            },
            Key::Up => {
                app.previous_command();
                UiAction::Stay
            },
            Key::Enter => Self::execute_selected_command(app),
            Key::Char(c) => {
                if c == 'j' {
                    app.next_command();
                    UiAction::Stay
                } else if c == 'k' {
                    app.previous_command();
                    UiAction::Stay
                } else {
                    let code_point: u32 = c as u32;
                    let lowered: u32 = if 65 <= code_point && code_point <= 90 {
                        code_point + 32
                    } else {
                        code_point
                    };
                    let pos: Option<usize> = if lowered == 'r' as u32 {
                        Some(0)
                    } else if lowered == 't' as u32 {
                        Some(1)
                    } else if lowered == 'c' as u32 {
                        Some(2)
                    } else if lowered == 's' as u32 {
                        Some(3)
                    } else if lowered == 'h' as u32 {
                        Some(4)
                    } else if lowered == 'q' as u32 {
                        Some(5)
                    } else {
                        None
                    };
                    match pos {
                        Some(p) => {
                            app.selected_command = p;
                            Self::execute_selected_command(app)
                        },
                        None => UiAction::Stay,
                    }
                }
            },
            _ => UiAction::Stay,
        }
    }

    /// Keys in the theme selector.
    pub fn handle_theme_selector(app: &mut AppStateManager, code: Key) -> (r: UiAction)
        requires
            old(app).wf(),
            old(app).state is ThemeSelector,
        ensures
            final(app).wf(),
            theme_step(old(app), final(app), code, r),
    {
        match code {
            Key::Esc => {
                app.state = AppState::Dashboard;
                UiAction::Stay
            },
            Key::Down => {
                app.next_theme();
                UiAction::Stay
            },
            Key::Up => {
                app.previous_theme();
                UiAction::Stay
            },
            Key::Enter => {
                let t: &String = &app.themes[app.selected_theme];
                let new_theme = Theme::from_str(t.as_str());
                app.pending_theme_change = Some(new_theme);
                app.state = AppState::Dashboard;
                UiAction::Stay
            },
            Key::Char(c) => {
                if c == 'j' {
                    app.next_theme();
                    UiAction::Stay
                } else if c == 'k' {
                    app.previous_theme();
                    UiAction::Stay
                } else {
                    UiAction::Stay
                }
            },
            _ => UiAction::Stay,
        }
    }

    /// Keys in the refresh confirmation.
    pub fn handle_confirm_refresh(app: &mut AppStateManager, code: Key) -> (r: UiAction)
        requires
            old(app).wf(),
            old(app).state is ConfirmRefresh,
        ensures
            final(app).wf(),
            confirm_refresh_step(old(app), final(app), code, r),
    {
        match code {
            Key::Char(c) => {
                if c == 'y' {
                    app.state = AppState::LoadingRefresh;
                    UiAction::StartRefresh
                } else if c == 'n' {
                    app.state = AppState::Dashboard;
                    UiAction::Stay
                } else {
                    UiAction::Stay
                }
            },
            Key::Enter => {
                app.state = AppState::LoadingRefresh;
                UiAction::StartRefresh
            },
            Key::Esc => {
                app.state = AppState::Dashboard;
                UiAction::Stay
            },
            _ => UiAction::Stay,
        }
    }

    /// Keys in the reconfigure confirmation.
    pub fn handle_confirm_reconfigure(app: &mut AppStateManager, code: Key) -> (r: UiAction)
        requires
            old(app).wf(),
            old(app).state is ConfirmReconfigure,
        ensures
            final(app).wf(),
            confirm_reconfigure_step(old(app), final(app), code, r),
    {
        match code {
            Key::Char(c) => {
                if c == 'y' {
                    app.action_taken = Some("reconfigure".to_owned());
                    UiAction::Exit
                } else if c == 'n' {
                    app.state = AppState::Dashboard;
                    UiAction::Stay
                } else {
                    UiAction::Stay
                }
            },
            Key::Enter => {
                app.action_taken = Some("reconfigure".to_owned());
                UiAction::Exit
            },
            Key::Esc => {
                app.state = AppState::Dashboard;
                UiAction::Stay
            },
            _ => UiAction::Stay,
        }
    }

    /// Keys in the help dialog.
    pub fn handle_help(app: &mut AppStateManager, code: Key) -> (r: UiAction)
        requires
            old(app).wf(),
            old(app).state is ShowHelp,
        ensures
            final(app).wf(),
            help_step(old(app), final(app), code, r),
    {
        match code {
            Key::Esc => {
                app.state = AppState::Dashboard;
                UiAction::Stay
            },
            Key::Char(c) => {
                if c == 'q' {
                    app.state = AppState::Dashboard;
                }
                UiAction::Stay
            },
            _ => UiAction::Stay,
        }
    }

    /// Executes the currently selected menu command.
    pub fn execute_selected_command(app: &mut AppStateManager) -> (r: UiAction)
        requires
            old(app).wf(),
        ensures
            final(app).wf(),
            exec_cmd_step(old(app), final(app), old(app).selected_command as int, r),
    {
        proof {
            super::state::lemma_command_ids_distinct();
        }
        let id = app.get_selected_command_id();
        if str_eq(id, "refresh") {
            app.state = AppState::ConfirmRefresh;
            UiAction::Stay
        } else if str_eq(id, "theme") {
            app.state = AppState::ThemeSelector;
            UiAction::Stay
        } else if str_eq(id, "reconfigure") {
            app.state = AppState::ConfirmReconfigure;
            UiAction::Stay
        } else if str_eq(id, "cache") {
            app.state = AppState::LoadingCache;
            UiAction::StartCacheInfo
        } else if str_eq(id, "help") {
            app.state = AppState::ShowHelp;
            UiAction::Stay
        } else if str_eq(id, "quit") {
            app.action_taken = Some("quit".to_owned());
            UiAction::Exit
        } else {
            UiAction::Stay
        }
    }

    /// Keys while a loading dialog is shown.
    pub fn handle_loading(app: &mut AppStateManager, code: Key) -> (r: UiAction)
        requires
            old(app).wf(),
            old(app).state is LoadingRefresh || old(app).state is LoadingCache,
        ensures
            final(app).wf(),
            loading_step(old(app), final(app), code, r),
    {
        if matches!(code, Key::Esc) {
            app.state = AppState::Dashboard;
        }
        UiAction::Stay
    }

    /// Keys in the cache-info dialog.
    pub fn handle_cache_info(app: &mut AppStateManager, _code: Key) -> (r: UiAction)
        requires
            old(app).wf(),
            old(app).state is ShowCacheInfo,
        ensures
            final(app).wf(),
            cache_info_step(old(app), final(app), r),
    {
        app.state = AppState::Dashboard;
        UiAction::Stay
    }

    /// Keys in the error dialog.
    pub fn handle_error(app: &mut AppStateManager, code: Key) -> (r: UiAction)
        requires
            old(app).wf(),
            old(app).state is ShowError,
        ensures
            final(app).wf(),
            error_step(old(app), final(app), code, r),
    {
        let toggled = matches!(code, Key::Char('d'));
        if toggled {
            let next: Option<AppState> = match &app.state {
                AppState::ShowError { message, debug_message, show_debug } => Some(
                    AppState::ShowError {
                        message: message.clone(),
                        debug_message: debug_message.clone(),
                        show_debug: !*show_debug,
                    },
                ),
                _ => None,
            };
            match next {
                Some(s) => {
                    app.state = s;
                },
                None => {},
            }
        } else {
            app.state = AppState::Dashboard;
        }
        UiAction::Stay
    }
}

/// Determinism of the refresh path: on the dashboard the refresh key leads
/// to the refresh confirmation, whatever the rest of the UI state holds —
/// the next state is a function of the key alone.
pub proof fn lemma_refresh_key_deterministic()
    ensures
        dashboard_state_after(Key::Char('r')) is ConfirmRefresh,
        forall|key: Key| #[trigger] dashboard_state_after(key) is ConfirmRefresh <==> key
            == Key::Char('r'),
{
}

} // verus!
