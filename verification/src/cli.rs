//! The command line as plain values, and the choice of the initial theme.
//! Argument parsing itself happens in the shell; the parsed record is
//! handed in here.

use vstd::prelude::*;
use crate::models::{theme_of_name, Theme};

verus! {

/// The parsed command line.
#[derive(Debug, Clone)]
pub struct Cli {
    /// The chosen subcommand, if any.
    pub command: Option<Commands>,
    /// Force a refresh from the accounting endpoint.
    pub refresh: bool,
    /// Emit the status-bar record instead of the dashboard.
    pub waybar: bool,
    /// Use this theme for the session.
    pub theme: Option<String>,
    /// Only report the cache status.
    pub cache_status: bool,
}

/// The subcommands.
#[derive(Debug, Clone, Copy, PartialEq, Eq, Structural)]
pub enum Commands {
    /// Show the current configuration.
    Config,
    /// Reset and reconfigure settings.
    Reset,
    /// Reconfigure (an alias of reset).
    Reconfigure,
}

/// The theme the session starts with: the one named on the command line if
/// any, else the one named in the configuration, else the dark default.
pub fn get_initial_theme(cli_theme: &Option<String>, config_theme: &Option<String>) -> (r: Theme)
    ensures
        (match cli_theme {
            Some(s) => r == theme_of_name(s@),
            None => match config_theme {
                Some(c) => r == theme_of_name(c@),
                None => r == Theme::Dark,
            },
        }),
{
    match cli_theme {
        Some(s) => Theme::from_str(s.as_str()),
        None => match config_theme {
            Some(c) => Theme::from_str(c.as_str()),
            None => Theme::Dark,
        },
    }
}

} // verus!
