//! Settings from the environment

use vstd::prelude::*;

verus! {

/// Whether a setting has a value of its own: it is set, and not empty
pub open spec fn is_given(value: Option<String>) -> bool {
    value matches Some(text) && text@.len() > 0
}

/// The value of a setting, where it has one of its own
///
/// The value is taken only when:
/// - It is set
/// - It is not empty
pub fn given(value: Option<String>) -> (taken: Option<String>)
    ensures
        taken == if is_given(value) {
            value
        } else {
            None
        },
{
    match value {
        Some(text) => {
            if text.as_str().is_empty() {
                None
            } else {
                Some(text)
            }
        },
        None => None,
    }
}

/// Get the value of a setting, or a default
///
/// The value is taken only when:
/// - It is set
/// - It is not empty
///
/// The default is made only where it is needed.
pub fn env_var_or_else<F: FnOnce() -> String>(value: Option<String>, or_else: F) -> (chosen: String)
    requires
        or_else.requires(()),
    ensures
        if is_given(value) {
            Some(chosen) == value
        } else {
            or_else.ensures((), chosen)
        },
{
    match given(value) {
        Some(text) => text,
        None => or_else(),
    }
}

} // verus!
