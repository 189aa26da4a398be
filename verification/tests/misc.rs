use copilot_usage::cli::get_initial_theme;
use copilot_usage::config::{save_theme_preference, valid_token_format, ConfigManager};
use copilot_usage::models::{days_in_month, next_month_start, Config, Date, Theme};
use copilot_usage::text::{eq_ignore_ascii_case, str_eq};
use copilot_usage::ui::scheduler::{
    is_animating, poll_timeout_ms, should_redraw, target_frame_time_ms,
};
use copilot_usage::ui::state::AppState;
use copilot_usage::ui::styles::{
    build_title, calculate_filled_cells, calculate_responsive_bar_width,
    calculate_zone_boundaries, UsageZone,
};
use copilot_usage::ui::{days_in_current_month, format_error_debug, format_error_for_user};
use copilot_usage::ui::async_handler::ErrorInfo;
use copilot_usage::waybar::{display_percentage, get_css_class};

#[test]
fn test_config_path() {
    let expected = "/tmp/somewhere/myconfig.toml".to_string();
    let manager = ConfigManager::with_path(expected.clone());
    assert_eq!(manager.config_path(), &expected);
}

#[test]
fn test_css_classes() {
    assert_eq!(get_css_class(9500), "copilot-critical");
    assert_eq!(get_css_class(8000), "copilot-warning");
    assert_eq!(get_css_class(6000), "copilot-normal");
    assert_eq!(get_css_class(3000), "copilot-low");
}

#[test]
fn css_class_boundaries() {
    assert_eq!(get_css_class(9000), "copilot-critical");
    assert_eq!(get_css_class(8999), "copilot-warning");
    assert_eq!(get_css_class(7500), "copilot-warning");
    assert_eq!(get_css_class(7499), "copilot-normal");
    assert_eq!(get_css_class(5000), "copilot-normal");
    assert_eq!(get_css_class(4999), "copilot-low");
    assert_eq!(display_percentage(11667), 116);
}

#[test]
fn token_shapes() {
    assert!(valid_token_format("ghp_test123"));
    assert!(valid_token_format("github_pat_abcdef"));
    assert!(!valid_token_format("gh_test"));
    assert!(!valid_token_format(""));
    assert!(!valid_token_format("GHP_test"));
}

#[test]
fn theme_preference_is_recorded() {
    let mut config = Config::default();
    assert_eq!(config.theme, "dark");
    assert_eq!(config.cache_ttl_minutes, 5);
    assert_eq!(config.waybar_format, "{percentage}%");
    assert!(config.username.is_none());

    save_theme_preference(&mut config, "nord");
    assert_eq!(config.theme, "nord");
    assert_eq!(config.cache_ttl_minutes, 5);
}

#[test]
fn theme_names_round_trip() {
    for theme in [
        Theme::Dark,
        Theme::Light,
        Theme::Dracula,
        Theme::Nord,
        Theme::Monokai,
        Theme::Gruvbox,
    ] {
        assert_eq!(Theme::from_str(theme.as_str()), theme);
    }
    assert_eq!(Theme::from_str("LIGHT"), Theme::Light);
    assert_eq!(Theme::from_str("DrAcUlA"), Theme::Dracula);
    assert_eq!(Theme::from_str("no-such-theme"), Theme::Dark);
    assert_eq!(Theme::from_str(""), Theme::Dark);
}

#[test]
fn initial_theme_prefers_the_command_line() {
    let cli = Some("nord".to_string());
    let config = Some("gruvbox".to_string());
    assert_eq!(get_initial_theme(&cli, &config), Theme::Nord);
    assert_eq!(get_initial_theme(&None, &config), Theme::Gruvbox);
    assert_eq!(get_initial_theme(&None, &None), Theme::Dark);
}

#[test]
fn calendar_rules() {
    assert_eq!(days_in_month(2024, 2), 29);
    assert_eq!(days_in_month(2023, 2), 28);
    assert_eq!(days_in_month(1900, 2), 28); // century, not a leap year
    assert_eq!(days_in_month(2000, 2), 29); // four-century rule
    assert_eq!(days_in_month(2026, 4), 30);
    assert_eq!(days_in_month(2026, 1), 31);

    assert_eq!(
        next_month_start(Date { year: 2026, month: 12, day: 25 }),
        Date { year: 2027, month: 1, day: 1 }
    );
    assert_eq!(
        next_month_start(Date { year: 2026, month: 1, day: 31 }),
        Date { year: 2026, month: 2, day: 1 }
    );

    let days = days_in_current_month();
    assert!((28..=31).contains(&days));
}

#[test]
fn zone_thresholds() {
    assert_eq!(UsageZone::from_percentage(9000), UsageZone::Error);
    assert_eq!(UsageZone::from_percentage(8999), UsageZone::Warning);
    assert_eq!(UsageZone::from_percentage(7500), UsageZone::Warning);
    assert_eq!(UsageZone::from_percentage(7499), UsageZone::Success);
    assert_eq!(UsageZone::from_percentage(0), UsageZone::Success);
    assert_eq!(UsageZone::from_percentage(20000), UsageZone::Error);
}

#[test]
fn bar_geometry() {
    assert_eq!(calculate_zone_boundaries(40), (30, 36));
    assert_eq!(calculate_zone_boundaries(10), (7, 9));

    assert_eq!(calculate_responsive_bar_width(100), 40); // capped at the maximum
    assert_eq!(calculate_responsive_bar_width(60), 30);
    assert_eq!(calculate_responsive_bar_width(8), 10); // floored at the minimum

    assert_eq!(calculate_filled_cells(5000, 40), 20);
    assert_eq!(calculate_filled_cells(11667, 40), 46); // over 100% overflows the bar
    assert_eq!(calculate_filled_cells(0, 40), 0);
}

#[test]
fn table_title_scroll_markers() {
    assert_eq!(build_title(false, 0, 5, 8), " Per-Model Usage: ");
    assert_eq!(build_title(true, 0, 20, 8), " Per-Model Usage:  ↓");
    assert_eq!(build_title(true, 3, 20, 8), "↑  Per-Model Usage:  ↓");
    assert_eq!(build_title(true, 12, 20, 8), "↑  Per-Model Usage: ");
}

#[test]
fn scheduler_decisions() {
    assert!(is_animating(&AppState::LoadingRefresh));
    assert!(is_animating(&AppState::LoadingCache));
    assert!(!is_animating(&AppState::Dashboard));
    assert!(!is_animating(&AppState::CommandMenu));

    assert_eq!(target_frame_time_ms(true), 33);
    assert_eq!(target_frame_time_ms(false), 1000);

    assert_eq!(poll_timeout_ms(true, 500, 1000), 0);
    assert_eq!(poll_timeout_ms(false, 400, 1000), 600);
    assert_eq!(poll_timeout_ms(false, 999, 1000), 1);
    assert_eq!(poll_timeout_ms(false, 2000, 1000), 1);

    assert!(should_redraw(true, 0, 1000));
    assert!(should_redraw(false, 1000, 1000));
    assert!(!should_redraw(false, 999, 1000));
}

#[test]
fn string_helpers() {
    assert!(str_eq("abc", "abc"));
    assert!(!str_eq("abc", "abd"));
    assert!(!str_eq("abc", "ab"));
    assert!(str_eq("", ""));

    assert!(eq_ignore_ascii_case("Dark", "dARK"));
    assert!(eq_ignore_ascii_case("", ""));
    assert!(!eq_ignore_ascii_case("dark", "darc"));
    assert!(!eq_ignore_ascii_case("dark", "darkk"));
}

#[test]
fn error_texts_are_preserved() {
    let e = ErrorInfo { message: "short".to_string(), debug_message: "long".to_string() };
    assert_eq!(format_error_for_user(&e), "short");
    assert_eq!(format_error_debug(&e), "long");
}
