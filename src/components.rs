use vstd::prelude::*;

use crate::random::random_in;

verus! {

/// The largest identity tag that an ingredient can carry.
pub const MAX_INGREDIENT_ID: u32 = 10;

/// A falling ingredient's identity tag, in `[0, MAX_INGREDIENT_ID]`.
#[derive(Clone, Copy, Debug, PartialEq, Eq, Structural)]
pub struct Ingredient {
    id: u32,
}

impl Ingredient {
    /// The ingredient's tag.
    pub closed spec fn tag(&self) -> nat {
        self.id as nat
    }

    /// An ingredient with a random tag.
    pub fn new() -> (r: Ingredient)
        ensures
            r.tag() <= MAX_INGREDIENT_ID,
    {
        let id = random_in(0, (MAX_INGREDIENT_ID + 1) as i32) as u32;
        Ingredient { id }
    }

    pub fn id(&self) -> (r: u32)
        ensures
            r == self.tag(),
    {
        self.id
    }
}

/// The player's container.
#[derive(Clone, Copy, Debug, PartialEq, Eq, Structural)]
pub struct Cauldron {
    pub is_selected: bool,
}

impl Cauldron {
    pub fn new() -> (r: Cauldron)
        ensures
            !r.is_selected,
    {
        Cauldron { is_selected: false }
    }
}

} // verus!
