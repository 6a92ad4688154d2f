//! A small unwrapping helper kept monomorphization-friendly for firmware
//! builds: callers prove the value is present instead of paying for a panic
//! path.

use vstd::prelude::*;

verus! {

/// Extract the value of an option the caller has shown to be `Some`.
pub fn unwrap<T>(option: Option<T>) -> (value: T)
    requires
        option is Some,
    ensures
        option == Some(value),
{
    match option {
        Some(value) => value,
        None => unreached(),
    }
}

} // verus!
