//! Loading a file, or doing without it.

use crate::error::LoadError;
use vstd::prelude::*;

verus! {

/// The loaded value, or the default value of its type where the load failed
/// for whatever reason. The failure is dropped.
pub fn load_or_default<T: Default>(loaded: Result<T, LoadError>) -> (value: T)
    ensures
        match loaded {
            Ok(found) => value == found,
            Err(_) => T::default.ensures((), value),
        },
{
    match loaded {
        Ok(found) => found,
        Err(_) => T::default(),
    }
}

} // verus!
