//! The status-bar output's one rule: which CSS class names the severity of
//! the current usage. The surrounding record is assembled and serialized by
//! the shell.

use vstd::prelude::*;

verus! {

/// The CSS class for a usage percentage given in hundredths of a percent:
/// `copilot-critical` from ninety percent, `copilot-warning` from
/// seventy-five, `copilot-normal` from fifty, `copilot-low` below.
pub open spec fn spec_css_class(percentage: u64) -> Seq<char> {
    if percentage >= 9000 {
        "copilot-critical"@
    } else if percentage >= 7500 {
        "copilot-warning"@
    } else if percentage >= 5000 {
        "copilot-normal"@
    } else {
        "copilot-low"@
    }
}

/// The CSS class naming the severity of a usage percentage.
pub fn get_css_class(percentage: u64) -> (r: String)
    ensures
        r@ == spec_css_class(percentage),
{
    if percentage >= 9000 {
        "copilot-critical".to_owned()
    } else if percentage >= 7500 {
        "copilot-warning".to_owned()
    } else if percentage >= 5000 {
        "copilot-normal".to_owned()
    } else {
        "copilot-low".to_owned()
    }
}

/// The status-bar text percentage: whole percent, rounded toward zero from
/// hundredths of a percent.
pub fn display_percentage(percentage: u64) -> (r: u64)
    ensures
        r == percentage / 100,
{
    percentage / 100
}

} // verus!
