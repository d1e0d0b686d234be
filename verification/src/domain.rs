//! Plain types shared by the game's requests.

use vstd::prelude::*;

verus! {

/// The kind of item a player selects.
#[derive(Debug, Clone, Copy, PartialEq, Eq, Structural)]
pub enum ItemType {
    Rod,
    Bait,
    Extra,
}

/// The currency an item is bought with.
#[allow(non_camel_case_types, clippy::upper_case_acronyms)]
#[derive(Debug, Clone, Copy, PartialEq, Eq, Structural)]
pub enum MoneyType {
    COINS,
    BUCKS,
}

/// A placeholder naming the backend's OpenAPI description; the description
/// itself is derived from the endpoints where they are served.
#[derive(Debug, Clone, Copy)]
pub struct ApiDoc;

} // verus!
