use vstd::prelude::*;

verus! {

/// A count that the native library returned, or `None` where the value is
/// negative, which is how the library reports a failure.
pub fn status_count(code: i32) -> (r: Option<usize>)
    ensures
        r == (if code >= 0 {
            Some(code as usize)
        } else {
            None
        }),
{
    if code >= 0 {
        Some(code as usize)
    } else {
        None
    }
}

/// A yes-or-no answer that the native library returned: `Some(true)` for a
/// positive value, `Some(false)` for zero, `None` for a negative value, which
/// reports a failure.
pub fn status_flag(code: i32) -> (r: Option<bool>)
    ensures
        r == (if code >= 0 {
            Some(code != 0)
        } else {
            None
        }),
{
    if code >= 0 {
        Some(code != 0)
    } else {
        None
    }
}

/// Whether an operation succeeded, by the value the native library returned
/// for it: a negative value reports a failure, any other value success.
pub fn status_ok(code: i32) -> (r: bool)
    ensures
        r == (code >= 0),
{
    code >= 0
}

/// A form ID that the native library made, or `None` where it is zero, which
/// is how the library reports a failure.
pub fn made_formid(id: u32) -> (r: Option<u32>)
    ensures
        r == (if id != 0 {
            Some(id)
        } else {
            None
        }),
{
    if id != 0 {
        Some(id)
    } else {
        None
    }
}

} // verus!
