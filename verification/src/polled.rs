//! What asking a source of values for the next one yields.
use vstd::prelude::*;

verus! {

/// The answer of something that is polled.
#[derive(Debug, PartialEq, Eq)]
pub enum Polled<T> {
    Ready(T),
    Pending,
}

} // verus!
