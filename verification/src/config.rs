//! The configuration layer's decisions: where the configuration lives, the
//! shape a credential must have, and how a theme choice is recorded. The
//! shell loads and saves the file itself and hands the parsed record in and
//! out as plain values.

use vstd::prelude::*;
use vstd::string::StrSliceExecFns;
use crate::models::Config;
use crate::text::str_eq;

verus! {

/// Names the location of the persisted configuration record.
pub struct ConfigManager {
    pub config_path: String,
}

impl ConfigManager {
    /// A manager for a configuration at the given path.
    pub fn with_path(config_path: String) -> (r: Self)
        ensures
            r.config_path == config_path,
    {
        ConfigManager { config_path }
    }

    /// The path of the configuration file.
    pub fn config_path(&self) -> (r: &String)
        ensures
            r == &self.config_path,
    {
        &self.config_path
    }
}

/// Whether a credential has an accepted shape: it starts with `ghp_` or
/// with `github_pat_`.
pub open spec fn spec_valid_token(s: Seq<char>) -> bool {
    ||| (s.len() >= 4 && s.subrange(0, 4) == "ghp_"@)
    ||| (s.len() >= 11 && s.subrange(0, 11) == "github_pat_"@)
}

/// Checks the shape of a credential before it is accepted.
pub fn valid_token_format(s: &str) -> (r: bool)
    ensures
        r == spec_valid_token(s@),
{
    let n = s.unicode_len();
    let ghp = if n >= 4 {
        str_eq(s.substring_char(0, 4), "ghp_")
    } else {
        false
    };
    if ghp {
        true
    } else if n >= 11 {
        str_eq(s.substring_char(0, 11), "github_pat_")
    } else {
        false
    }
}

/// Records a chosen theme in the configuration; the shell persists the
/// record afterwards. Every other field is untouched.
pub fn save_theme_preference(config: &mut Config, theme_name: &str)
    ensures
        final(config).theme@ == theme_name@,
        final(config).token == old(config).token,
        final(config).cache_ttl_minutes == old(config).cache_ttl_minutes,
        final(config).waybar_format == old(config).waybar_format,
        final(config).username == old(config).username,
{
    config.theme = theme_name.to_owned();
}

} // verus!
