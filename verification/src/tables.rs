//! The fixed code-to-label tables for buttons and wheel directions.

use vstd::prelude::*;

verus! {

/// The label of a button code: the table `1 -> upper, 2 -> lower,
/// 3 -> something_else`. Every other code has no label.
pub open spec fn button_label(code: u8) -> Option<Seq<char>> {
    if code == 1 {
        Some("upper"@)
    } else if code == 2 {
        Some("lower"@)
    } else if code == 3 {
        Some("something_else"@)
    } else {
        None
    }
}

/// The label of a wheel direction code: the table `0 -> left, 1 -> right`.
/// Every other code has no label.
pub open spec fn wheel_label(code: u8) -> Option<Seq<char>> {
    if code == 0 {
        Some("left"@)
    } else if code == 1 {
        Some("right"@)
    } else {
        None
    }
}

/// The view of an optional label.
pub open spec fn label_view(label: Option<&'static str>) -> Option<Seq<char>> {
    match label {
        Some(s) => Some(s@),
        None => None,
    }
}

/// Looks a button code up in the button table. Unknown codes are not an
/// error: they have no label.
pub fn resolve_button(code: u8) -> (label: Option<&'static str>)
    ensures
        label_view(label) == button_label(code),
        label.is_some() <==> (code == 1 || code == 2 || code == 3),
{
    match code {
        1 => Some("upper"),
        2 => Some("lower"),
        3 => Some("something_else"),
        _ => None,
    }
}

/// Looks a wheel direction code up in the wheel table. Unknown codes are not
/// an error: they have no label.
pub fn resolve_wheel(code: u8) -> (label: Option<&'static str>)
    ensures
        label_view(label) == wheel_label(code),
        label.is_some() <==> (code == 0 || code == 1),
{
    match code {
        0 => Some("left"),
        1 => Some("right"),
        _ => None,
    }
}

} // verus!
