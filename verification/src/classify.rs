//! Severity classification: mapping a numeric severity code to the colour
//! band shown in the table.

use vstd::prelude::*;

verus! {

/// The colour band of a status: good service, a warning, or a severe
/// disruption.
#[derive(Clone, Copy, Debug, PartialEq, Eq, Structural)]
pub enum StatusColor {
    Good,
    Warning,
    Severe,
}

/// The classification rule. The two sentinel codes take precedence over
/// the general threshold: 10 is good service and 20 is severe, any other
/// code of at least 8 is a warning, and everything else falls through to
/// severe as the safe default.
pub open spec fn classify_spec(code: int) -> StatusColor {
    if code == 10 {
        StatusColor::Good
    } else if code == 20 {
        StatusColor::Severe
    } else if code >= 8 {
        StatusColor::Warning
    } else {
        StatusColor::Severe
    }
}

/// Classify a severity code, checking the sentinels before the threshold.
pub fn classify(code: i64) -> (c: StatusColor)
    ensures
        c == classify_spec(code as int),
{
    if code == 10 {
        StatusColor::Good
    } else if code == 20 {
        StatusColor::Severe
    } else if code >= 8 {
        StatusColor::Warning
    } else {
        StatusColor::Severe
    }
}

/// The classification covers every code: 10 is good, 20 is severe, any
/// other code in the warning band (at least 8) is a warning, and every
/// code below 8 is severe.
pub proof fn lemma_classify_total(code: int)
    ensures
        code == 10 ==> classify_spec(code) == StatusColor::Good,
        code == 20 ==> classify_spec(code) == StatusColor::Severe,
        code >= 8 && code != 10 && code != 20 ==> classify_spec(code) == StatusColor::Warning,
        code < 8 ==> classify_spec(code) == StatusColor::Severe,
{
}

} // verus!
