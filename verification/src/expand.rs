//! Interpretation of a history-expansion status code.
//!
//! The native expansion entry point reports an integer status beside
//! the text it produced. The decision of what the pair means to a host
//! caller is made here, once, for both the real boundary and the model
//! store.

use vstd::prelude::*;

verus! {

/// Status reporting that the expansion should only be displayed, not
/// used; treated as a failure, as an error status is.
pub const DISPLAY_ONLY: i32 = 2;

/// Interpret a native expansion status. Status 0 means nothing was
/// expanded and the caller keeps the original input; a negative status
/// or the display-only status is a failure surfacing the produced
/// text; any other positive status is a successful expansion carrying
/// the replacement text.
pub fn classify_expansion(code: i32, text: String) -> (r: Result<Option<String>, String>)
    ensures
        code == 0 ==> r == Ok::<Option<String>, String>(None),
        code < 0 || code == DISPLAY_ONLY ==> (r matches Err(t) && t == text),
        code > 0 && code != DISPLAY_ONLY ==> (r matches Ok(Some(t)) && t == text),
{
    if code == 0 {
        Ok(None)
    } else if code < 0 || code == DISPLAY_ONLY {
        Err(text)
    } else {
        Ok(Some(text))
    }
}

} // verus!
