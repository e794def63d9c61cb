//! Brightness persistence: saved on change, then debounced so dragging a
//! slider does not wear out the flash, and never rewritten with the value
//! already stored.

use vstd::prelude::*;

verus! {

/// Debounce window after a save, in seconds.
pub const DEBOUNCE_SECS: u64 = 30;

/// Whether saving `value` needs a flash write, given what reading back the
/// stored item gave (`None`: nothing stored, or the read failed).
pub fn needs_save(stored: Option<u16>, value: u16) -> (r: bool)
    ensures
        r == (stored != Some(value)),
{
    match stored {
        Some(v) => v != value,
        None => true,
    }
}

/// What to save once the debounce window after saving `saved` ends, given
/// the latest brightness change seen during it (`None`: none).
pub fn debounce_followup(saved: u16, latest: Option<u16>) -> (r: Option<u16>)
    ensures
        r == match latest {
            Some(v) => if v != saved {
                Some(v)
            } else {
                None
            },
            None => None,
        },
{
    match latest {
        Some(v) => if v != saved {
            Some(v)
        } else {
            None
        },
        None => None,
    }
}

} // verus!
