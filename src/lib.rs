use vstd::prelude::*;

pub mod bundle;
pub mod ensure;
pub mod model;
pub mod profile;
pub mod report;
pub mod stats;
pub mod store;

verus! {

/// Identity of a player: the 128 bits of its UUID.
pub type PlayerId = u128;

/// The view of an optional string as an optional sequence of characters.
pub open spec fn opt_str(s: Option<String>) -> Option<Seq<char>> {
    match s {
        Some(v) => Some(v@),
        None => None,
    }
}

} // verus!
