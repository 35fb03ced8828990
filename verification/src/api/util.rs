//! Output arguments.

use vstd::prelude::*;

verus! {

/// Writes through an output pointer; does nothing when it is null.
pub fn write_if_some<T>(ptr: Option<&mut T>, value: T)
    ensures
        ptr matches Some(p) ==> *final(p) == value,
{
    match ptr {
        Some(p) => {
            *p = value;
        },
        None => {},
    }
}

} // verus!
