use copilot_usage::ui::state::{AppState, AppStateManager};
use copilot_usage::ui::{execute_command, App, AppState as BasicAppState};

#[test]
fn fresh_manager_starts_on_the_dashboard() {
    let app = AppStateManager::new();
    assert!(matches!(app.state, AppState::Dashboard));
    assert_eq!(app.selected_command, 0);
    assert_eq!(app.command_scroll_offset, 0);
    assert_eq!(app.selected_theme, 0);
    assert_eq!(app.theme_scroll_offset, 0);
    assert_eq!(app.model_scroll_offset, 0);
    assert_eq!(app.commands.len(), 6);
    assert_eq!(app.themes.len(), 10);
    assert_eq!(app.action_taken, None);
    assert_eq!(app.spinner_state, 0);
    assert_eq!(app.pending_theme_change, None);

    let d = AppStateManager::default();
    assert!(matches!(d.state, AppState::Dashboard));
}

#[test]
fn command_selection_wraps_both_ways() {
    let mut app = AppStateManager::new();
    for expected in [1, 2, 3, 4, 5, 0] {
        app.next_command();
        assert_eq!(app.selected_command, expected);
    }
    app.previous_command();
    assert_eq!(app.selected_command, 5);
}

#[test]
fn command_scroll_window_follows_the_selection() {
    let mut app = AppStateManager::new();
    // Six entries, five visible: walking to the last entry slides the
    // window down by one.
    for _ in 0..5 {
        app.next_command();
    }
    assert_eq!(app.selected_command, 5);
    assert_eq!(app.command_scroll_offset, 1);
    // Wrapping back to the top snaps the window back.
    app.next_command();
    assert_eq!(app.selected_command, 0);
    assert_eq!(app.command_scroll_offset, 0);
}

#[test]
fn theme_selection_wraps_both_ways() {
    let mut app = AppStateManager::new();
    app.previous_theme();
    assert_eq!(app.selected_theme, 9);
    assert_eq!(app.theme_scroll_offset, 5);
    app.next_theme();
    assert_eq!(app.selected_theme, 0);
    assert_eq!(app.theme_scroll_offset, 0);
}

#[test]
fn model_scroll_is_clamped() {
    let mut app = AppStateManager::new();
    app.scroll_models_up();
    assert_eq!(app.model_scroll_offset, 0);

    // Ten models, eight visible: at most two rows of scroll.
    app.scroll_models_down(10, 8);
    app.scroll_models_down(10, 8);
    app.scroll_models_down(10, 8);
    assert_eq!(app.model_scroll_offset, 2);

    app.scroll_models_up();
    assert_eq!(app.model_scroll_offset, 1);
}

#[test]
fn selected_command_id_follows_the_selection() {
    let mut app = AppStateManager::new();
    assert_eq!(app.get_selected_command_id(), "refresh");
    app.next_command();
    assert_eq!(app.get_selected_command_id(), "theme");
    app.next_command();
    assert_eq!(app.get_selected_command_id(), "reconfigure");
}

#[test]
fn spinner_cycles_through_ten_phases() {
    let mut app = AppStateManager::new();
    assert_eq!(app.get_spinner_char(), '⠋');
    for _ in 0..9 {
        app.advance_spinner();
    }
    assert_eq!(app.spinner_state, 9);
    assert_eq!(app.get_spinner_char(), '⠏');
    app.advance_spinner();
    assert_eq!(app.spinner_state, 0);
    assert_eq!(app.get_spinner_char(), '⠋');
}

#[test]
fn basic_app_executes_commands() {
    let mut app = App::new();
    assert!(matches!(app.state, BasicAppState::Dashboard));
    assert_eq!(app.themes.len(), 6);
    assert_eq!(app.themes[1], "light");

    execute_command(&mut app);
    assert!(matches!(app.state, BasicAppState::ConfirmRefresh));

    // The cache command records its action token instead of a state change.
    let mut app = App::new();
    app.next_command();
    app.next_command();
    app.next_command();
    assert_eq!(app.get_selected_command_id(), "cache");
    execute_command(&mut app);
    assert_eq!(app.action_taken.as_deref(), Some("cache"));

    // So does quit.
    let mut app = App::new();
    app.previous_command();
    assert_eq!(app.selected_command, 5);
    execute_command(&mut app);
    assert_eq!(app.action_taken.as_deref(), Some("quit"));
}

#[test]
fn basic_app_selection_and_scroll() {
    let mut app = App::new();
    app.next_theme();
    assert_eq!(app.selected_theme, 1);
    app.previous_theme();
    app.previous_theme();
    assert_eq!(app.selected_theme, 5);

    app.scroll_models_down(3, 8);
    assert_eq!(app.model_scroll_offset, 0); // everything fits
    app.scroll_models_down(12, 8);
    assert_eq!(app.model_scroll_offset, 1);
    app.scroll_models_up();
    assert_eq!(app.model_scroll_offset, 0);
}
