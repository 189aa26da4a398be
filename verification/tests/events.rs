use copilot_usage::models::{Theme, TimePeriod, UsageData, UsageStats};
use copilot_usage::models::Date;
use copilot_usage::ui::async_handler::{
    apply_async_result, refresh_step, AsyncResult, ErrorInfo, RefreshEvent, RefreshPhase,
};
use copilot_usage::ui::events::{EventHandler, Key, UiAction};
use copilot_usage::ui::state::{AppState, AppStateManager, CacheInfo};

fn some_stats() -> UsageStats {
    UsageStats {
        total_used: 0,
        total_limit: 300,
        percentage: 0,
        reset_date: Date { year: 2026, month: 3, day: 1 },
        models: vec![],
        estimated_cost: 0,
        username: "u".to_string(),
    }
}

fn err(msg: &str) -> ErrorInfo {
    ErrorInfo { message: msg.to_string(), debug_message: format!("debug: {}", msg) }
}

#[test]
fn refresh_key_always_confirms_from_dashboard() {
    // Whatever happened before, the refresh key on the dashboard opens the
    // refresh confirmation.
    let mut app = AppStateManager::new();
    let r = EventHandler::handle_key_press(&mut app, Key::Char('r'), 0);
    assert!(matches!(app.state, AppState::ConfirmRefresh));
    assert_eq!(r, UiAction::Stay);

    let mut app = AppStateManager::new();
    app.next_command();
    app.next_theme();
    app.scroll_models_down(20, 8);
    app.advance_spinner();
    let r = EventHandler::handle_key_press(&mut app, Key::Char('r'), 20);
    assert!(matches!(app.state, AppState::ConfirmRefresh));
    assert_eq!(r, UiAction::Stay);
}

#[test]
fn dashboard_keys_open_their_modals() {
    let mut app = AppStateManager::new();
    EventHandler::handle_key_press(&mut app, Key::Char('/'), 0);
    assert!(matches!(app.state, AppState::CommandMenu));

    let mut app = AppStateManager::new();
    EventHandler::handle_key_press(&mut app, Key::Char('t'), 0);
    assert!(matches!(app.state, AppState::ThemeSelector));

    let mut app = AppStateManager::new();
    EventHandler::handle_key_press(&mut app, Key::Char('h'), 0);
    assert!(matches!(app.state, AppState::ShowHelp));

    let mut app = AppStateManager::new();
    let r = EventHandler::handle_key_press(&mut app, Key::Char('q'), 0);
    assert_eq!(r, UiAction::Exit);
    assert_eq!(app.action_taken.as_deref(), Some("quit"));

    let mut app = AppStateManager::new();
    EventHandler::handle_key_press(&mut app, Key::Down, 20);
    assert_eq!(app.model_scroll_offset, 1);
    EventHandler::handle_key_press(&mut app, Key::Up, 20);
    assert_eq!(app.model_scroll_offset, 0);
}

#[test]
fn menu_navigation_and_execution() {
    let mut app = AppStateManager::new();
    EventHandler::handle_key_press(&mut app, Key::Char(':'), 0);
    assert!(matches!(app.state, AppState::CommandMenu));

    EventHandler::handle_key_press(&mut app, Key::Char('j'), 0);
    assert_eq!(app.selected_command, 1);
    EventHandler::handle_key_press(&mut app, Key::Char('k'), 0);
    assert_eq!(app.selected_command, 0);

    // Enter executes the selected command.
    let r = EventHandler::handle_key_press(&mut app, Key::Enter, 0);
    assert!(matches!(app.state, AppState::ConfirmRefresh));
    assert_eq!(r, UiAction::Stay);
}

#[test]
fn menu_quick_jump_ignores_case_and_spawns_cache_read() {
    let mut app = AppStateManager::new();
    app.state = AppState::CommandMenu;
    let r = EventHandler::handle_key_press(&mut app, Key::Char('S'), 0);
    assert_eq!(app.selected_command, 3);
    assert!(matches!(app.state, AppState::LoadingCache));
    assert_eq!(r, UiAction::StartCacheInfo);

    // A letter no command carries does nothing.
    let mut app = AppStateManager::new();
    app.state = AppState::CommandMenu;
    let r = EventHandler::handle_key_press(&mut app, Key::Char('x'), 0);
    assert!(matches!(app.state, AppState::CommandMenu));
    assert_eq!(r, UiAction::Stay);

    // Escape closes the menu.
    let r = EventHandler::handle_key_press(&mut app, Key::Esc, 0);
    assert!(matches!(app.state, AppState::Dashboard));
    assert_eq!(r, UiAction::Stay);
}

#[test]
fn theme_selector_applies_in_place() {
    let mut app = AppStateManager::new();
    app.state = AppState::ThemeSelector;
    EventHandler::handle_key_press(&mut app, Key::Down, 0);
    assert_eq!(app.selected_theme, 1);
    let r = EventHandler::handle_key_press(&mut app, Key::Enter, 0);
    assert!(matches!(app.state, AppState::Dashboard));
    assert_eq!(app.pending_theme_change, Some(Theme::Dracula));
    assert_eq!(r, UiAction::Stay);

    // Escape cancels without a pending change.
    let mut app = AppStateManager::new();
    app.state = AppState::ThemeSelector;
    EventHandler::handle_key_press(&mut app, Key::Esc, 0);
    assert!(matches!(app.state, AppState::Dashboard));
    assert_eq!(app.pending_theme_change, None);
}

#[test]
fn refresh_confirmation_gates_the_spawn() {
    let mut app = AppStateManager::new();
    app.state = AppState::ConfirmRefresh;
    let r = EventHandler::handle_key_press(&mut app, Key::Char('y'), 0);
    assert!(matches!(app.state, AppState::LoadingRefresh));
    assert_eq!(r, UiAction::StartRefresh);

    let mut app = AppStateManager::new();
    app.state = AppState::ConfirmRefresh;
    let r = EventHandler::handle_key_press(&mut app, Key::Char('n'), 0);
    assert!(matches!(app.state, AppState::Dashboard));
    assert_eq!(r, UiAction::Stay);
}

#[test]
fn reconfigure_confirmation_exits_with_its_token() {
    let mut app = AppStateManager::new();
    app.state = AppState::ConfirmReconfigure;
    let r = EventHandler::handle_key_press(&mut app, Key::Enter, 0);
    assert_eq!(r, UiAction::Exit);
    assert_eq!(app.action_taken.as_deref(), Some("reconfigure"));

    let mut app = AppStateManager::new();
    app.state = AppState::ConfirmReconfigure;
    let r = EventHandler::handle_key_press(&mut app, Key::Esc, 0);
    assert!(matches!(app.state, AppState::Dashboard));
    assert_eq!(r, UiAction::Stay);
}

#[test]
fn loading_cancel_detaches_the_ui() {
    let mut app = AppStateManager::new();
    app.state = AppState::LoadingRefresh;
    EventHandler::handle_key_press(&mut app, Key::Char('z'), 0);
    assert!(matches!(app.state, AppState::LoadingRefresh));
    EventHandler::handle_key_press(&mut app, Key::Esc, 0);
    assert!(matches!(app.state, AppState::Dashboard));
}

#[test]
fn help_and_cache_info_close_on_a_key() {
    let mut app = AppStateManager::new();
    app.state = AppState::ShowHelp;
    EventHandler::handle_key_press(&mut app, Key::Char('q'), 0);
    assert!(matches!(app.state, AppState::Dashboard));

    let mut app = AppStateManager::new();
    app.state = AppState::ShowCacheInfo(CacheInfo {
        last_updated: None,
        is_fresh: false,
        ttl_minutes: 5,
    });
    EventHandler::handle_key_press(&mut app, Key::Enter, 0);
    assert!(matches!(app.state, AppState::Dashboard));
}

#[test]
fn error_dialog_toggles_and_dismisses() {
    let mut app = AppStateManager::new();
    app.state = AppState::ShowError {
        message: "short".to_string(),
        debug_message: "long".to_string(),
        show_debug: false,
    };
    EventHandler::handle_key_press(&mut app, Key::Char('d'), 0);
    match &app.state {
        AppState::ShowError { message, debug_message, show_debug } => {
            assert_eq!(message, "short");
            assert_eq!(debug_message, "long");
            assert!(*show_debug);
        }
        other => panic!("unexpected state: {:?}", other),
    }
    EventHandler::handle_key_press(&mut app, Key::Char('d'), 0);
    assert!(matches!(app.state, AppState::ShowError { show_debug: false, .. }));

    EventHandler::handle_key_press(&mut app, Key::Enter, 0);
    assert!(matches!(app.state, AppState::Dashboard));
}

#[test]
fn failed_refresh_always_shows_the_error() {
    // From any state, a failed refresh result lands in the error dialog
    // with the diagnostic view off.
    for make_state in [
        AppState::Dashboard,
        AppState::CommandMenu,
        AppState::LoadingRefresh,
        AppState::ShowHelp,
    ] {
        let mut app = AppStateManager::new();
        app.state = make_state;
        let mut stats = some_stats();
        let redraw = apply_async_result(
            &mut app,
            &mut stats,
            AsyncResult::RefreshComplete(Err(err("boom"))),
        );
        assert!(redraw);
        match &app.state {
            AppState::ShowError { message, debug_message, show_debug } => {
                assert_eq!(message, "boom");
                assert_eq!(debug_message, "debug: boom");
                assert!(!*show_debug);
            }
            other => panic!("unexpected state: {:?}", other),
        }
    }
}

#[test]
fn successful_refresh_replaces_the_stats() {
    let mut app = AppStateManager::new();
    app.state = AppState::LoadingRefresh;
    let mut stats = some_stats();
    let mut new_stats = some_stats();
    new_stats.total_used = 123;
    apply_async_result(&mut app, &mut stats, AsyncResult::RefreshComplete(Ok(new_stats)));
    assert!(matches!(app.state, AppState::Dashboard));
    assert_eq!(stats.total_used, 123);
}

#[test]
fn cache_info_and_theme_results() {
    let mut app = AppStateManager::new();
    app.state = AppState::LoadingCache;
    let mut stats = some_stats();
    let info = CacheInfo { last_updated: None, is_fresh: true, ttl_minutes: 5 };
    apply_async_result(&mut app, &mut stats, AsyncResult::CacheInfoReady(info.clone()));
    assert_eq!(app.state, AppState::ShowCacheInfo(info));

    // A persisted (or failed) theme save changes nothing.
    let mut app = AppStateManager::new();
    app.state = AppState::Dashboard;
    apply_async_result(&mut app, &mut stats, AsyncResult::ThemeSaved(Ok(())));
    assert!(matches!(app.state, AppState::Dashboard));
    apply_async_result(&mut app, &mut stats, AsyncResult::ThemeSaved(Err(err("disk full"))));
    assert!(matches!(app.state, AppState::Dashboard));
}

#[test]
fn refresh_flow_happy_path() {
    let phase = RefreshPhase::Start;
    let phase = refresh_step(phase, RefreshEvent::Invalidated);
    assert!(matches!(phase, RefreshPhase::NeedUser));

    let phase = refresh_step(phase, RefreshEvent::UserResolved(Ok("octocat".to_string())));
    match &phase {
        RefreshPhase::NeedUsage { username } => assert_eq!(username, "octocat"),
        other => panic!("unexpected phase: {:?}", other),
    }

    let data = UsageData {
        time_period: TimePeriod { year: 2026, month: Some(2), day: None },
        user: "octocat".to_string(),
        usage_items: vec![copilot_usage::models::UsageItem {
            model: "gpt-4".to_string(),
            gross_quantity: 30,
            net_quantity: 10,
        }],
    };
    let phase = refresh_step(phase, RefreshEvent::UsageFetched(Ok(data)));
    assert!(matches!(phase, RefreshPhase::NeedStore { .. }));

    let phase = refresh_step(phase, RefreshEvent::Stored);
    match phase {
        RefreshPhase::Done(Ok(stats)) => {
            assert_eq!(stats.total_used, 30);
            assert_eq!(stats.estimated_cost, 40);
            assert_eq!(stats.username, "octocat");
        }
        other => panic!("unexpected phase: {:?}", other),
    }
}

#[test]
fn refresh_flow_failures() {
    let phase = refresh_step(RefreshPhase::NeedUser, RefreshEvent::UserResolved(Err(err("401"))));
    match phase {
        RefreshPhase::Done(Err(e)) => {
            assert_eq!(
                e.message,
                "Could not determine username from token. Please reconfigure with a valid token."
            );
        }
        other => panic!("unexpected phase: {:?}", other),
    }

    let phase = refresh_step(
        RefreshPhase::NeedUsage { username: "octocat".to_string() },
        RefreshEvent::UsageFetched(Err(err("rate limited"))),
    );
    match phase {
        RefreshPhase::Done(Err(e)) => assert_eq!(e.message, "rate limited"),
        other => panic!("unexpected phase: {:?}", other),
    }

    // An event that does not answer the phase changes nothing.
    let phase = refresh_step(RefreshPhase::Start, RefreshEvent::Stored);
    assert!(matches!(phase, RefreshPhase::Start));
}
