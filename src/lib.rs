//! Composition of a chat notification describing the outcome of a CI build.

use vstd::prelude::*;

pub mod alert;
pub mod build_info;
pub mod laws;
pub mod channel;
pub mod message;
pub mod text;

verus! {

/// The view of an optional string.
pub open spec fn opt_view(o: Option<String>) -> Option<Seq<char>> {
    match o {
        Some(s) => Some(s@),
        None => None,
    }
}

} // verus!
