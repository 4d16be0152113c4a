use vstd::prelude::*;

use crate::components::MAX_INGREDIENT_ID;
use crate::random::random_in;

verus! {

/// The queue of ingredient tags offered to the player, first one current.
pub struct IngredientsList {
    ids: Vec<u32>,
}

impl View for IngredientsList {
    type V = Seq<u32>;

    closed spec fn view(&self) -> Seq<u32> {
        self.ids@
    }
}

impl IngredientsList {
    /// A current tag followed by `num + 1` listed ones, all random.
    pub fn new(num: u32) -> (r: IngredientsList)
        ensures
            r@.len() == num + 2,
            forall|i: int| 0 <= i < r@.len() ==> r@[i] <= MAX_INGREDIENT_ID,
    {
        let total: u64 = num as u64 + 2;
        let mut ids: Vec<u32> = Vec::new();
        let mut i: u64 = 0;
        while i < total
            invariant
                total == num + 2,
                i <= total,
                ids@.len() == i,
                forall|k: int| 0 <= k < ids@.len() ==> ids@[k] <= MAX_INGREDIENT_ID,
            decreases total - i,
        {
            let id = random_in(0, (MAX_INGREDIENT_ID + 1) as i32) as u32;
            ids.push(id);
            i = i + 1;
        }
        IngredientsList { ids }
    }

    /// The current tag.
    pub fn head(&self) -> (r: Option<u32>)
        ensures
            r == (if self@.len() > 0 { Some(self@[0]) } else { None::<u32> }),
    {
        if self.ids.len() > 0 { Some(self.ids[0]) } else { None }
    }

    /// The tag listed after the current one.
    pub fn next(&self) -> (r: Option<u32>)
        ensures
            r == (if self@.len() > 1 { Some(self@[1]) } else { None::<u32> }),
    {
        if self.ids.len() > 1 { Some(self.ids[1]) } else { None }
    }
}

impl Default for IngredientsList {
    fn default() -> (r: IngredientsList)
        ensures
            r@.len() == 12,
            forall|i: int| 0 <= i < r@.len() ==> r@[i] <= MAX_INGREDIENT_ID,
    {
        IngredientsList::new(10)
    }
}

} // verus!
