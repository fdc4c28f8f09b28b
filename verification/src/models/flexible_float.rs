//! Reading of numeric cells that may hold a placeholder instead of a number.

use vstd::prelude::*;

verus! {

/// The cell texts that stand for a missing number.
pub open spec fn is_missing_marker(s: Seq<char>) -> bool {
    s.len() == 0 || s == "NaN"@ || s == "null"@
}

/// The text of a numeric cell that is to be read as a float, or `None` when
/// the cell is absent or holds one of the placeholders `""`, `"NaN"` and
/// `"null"`. A text that then fails to read as a float also counts as absent.
pub fn deserialize(cell: Option<String>) -> (r: Option<String>)
    ensures
        r == (match cell {
            None => None,
            Some(s) => if is_missing_marker(s@) { None } else { Some(s) },
        }),
{
    match cell {
        None => None,
        Some(val) => {
            if val.as_str().is_empty() || crate::text::str_eq(val.as_str(), "NaN")
                || crate::text::str_eq(val.as_str(), "null") {
                None
            } else {
                Some(val)
            }
        },
    }
}

} // verus!
