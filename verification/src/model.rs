//! A helper for the mathematical values of the library's types.

use vstd::prelude::*;

verus! {

/// An optional value as a mathematical value: what it holds, by its view.
pub open spec fn viewed<T: View>(value: Option<T>) -> Option<T::V> {
    match value {
        Some(held) => Some(held@),
        None => None,
    }
}

} // verus!
