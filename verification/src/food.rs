//! Food pellets: a position, a remaining amount of nutrition and the
//! largest bite that one eat action can take. A pellet's identity is its
//! id alone — sensing hands copies of pellets around, and the world
//! resolves a copy back to the authoritative pellet by id before any
//! mutation.

use vstd::prelude::*;

use crate::vector2d::Vector2D;

verus! {

#[derive(Clone, Copy, Debug)]
pub struct FoodPellet {
    pub position: Vector2D,
    pub nutrition: u32,
    pub bite_size: u32,
    pub id: usize,
}

/// Two pellets are the same pellet exactly when their ids agree.
impl PartialEq for FoodPellet {
    fn eq(&self, other: &FoodPellet) -> (r: bool) {
        self.id == other.id
    }
}

impl vstd::std_specs::cmp::PartialEqSpecImpl for FoodPellet {
    open spec fn obeys_eq_spec() -> bool {
        true
    }

    open spec fn eq_spec(&self, other: &FoodPellet) -> bool {
        self.id == other.id
    }
}

/// How much one eat action takes from a pellet: a full bite, or whatever
/// nutrition is left when that is less.
pub open spec fn bite_amount_spec(p: FoodPellet) -> int {
    if p.nutrition >= p.bite_size {
        p.bite_size as int
    } else {
        p.nutrition as int
    }
}

/// The pellet after one eat action.
pub open spec fn eaten_step_spec(p: FoodPellet) -> FoodPellet {
    FoodPellet { nutrition: (p.nutrition - bite_amount_spec(p)) as u32, ..p }
}

impl FoodPellet {
    pub fn get_position(&self) -> (r: Vector2D)
        ensures
            r == self.position,
    {
        self.position
    }

    /// Remove and return one bite: `bite_size` while at least that much
    /// nutrition is left, the remaining nutrition otherwise.
    pub fn get_eaten(&mut self) -> (r: u32)
        ensures
            r == bite_amount_spec(*old(self)),
            *final(self) == eaten_step_spec(*old(self)),
            final(self).nutrition <= old(self).nutrition,
    {
        if self.nutrition >= self.bite_size {
            self.nutrition = self.nutrition - self.bite_size;
            self.bite_size
        } else {
            let left = self.nutrition;
            self.nutrition = 0;
            left
        }
    }

    pub fn is_some_left(&self) -> (r: bool)
        ensures
            r == (self.nutrition > 0),
    {
        self.nutrition > 0
    }
}

/// The pellet after `k` eat actions.
pub open spec fn eaten_after_spec(p: FoodPellet, k: nat) -> FoodPellet
    decreases k,
{
    if k == 0 {
        p
    } else {
        eaten_step_spec(eaten_after_spec(p, (k - 1) as nat))
    }
}

/// Nutrition never increases along any sequence of eat actions, and never
/// goes below zero (it is an unsigned amount throughout).
pub proof fn lemma_nutrition_monotonic(p: FoodPellet, j: nat, k: nat)
    requires
        j <= k,
    ensures
        eaten_after_spec(p, k).nutrition <= eaten_after_spec(p, j).nutrition,
    decreases k,
{
    if j < k {
        lemma_nutrition_monotonic(p, j, (k - 1) as nat);
    }
}

/// With a positive bite size, enough eat actions drain a pellet to
/// exactly zero nutrition: one bite per full `bite_size`, plus one more
/// for any remainder.
pub proof fn lemma_nutrition_depletes(p: FoodPellet, k: nat)
    requires
        p.bite_size >= 1,
        k >= p.nutrition,
    ensures
        eaten_after_spec(p, k).nutrition == 0,
    decreases k,
{
    if k > 0 {
        if p.nutrition == 0 {
            lemma_nutrition_monotonic(p, 0, k);
        } else {
            lemma_nutrition_depletes(eaten_step_spec(p), (k - 1) as nat);
            lemma_step_of_after(p, (k - 1) as nat);
        }
    }
}

/// Eat actions can be peeled off either end of an iterated sequence.
proof fn lemma_step_of_after(p: FoodPellet, k: nat)
    ensures
        eaten_after_spec(p, k + 1) == eaten_after_spec(eaten_step_spec(p), k),
    decreases k,
{
    if k == 0 {
        assert(eaten_after_spec(p, 0) == p);
        assert(eaten_after_spec(p, 1) == eaten_step_spec(eaten_after_spec(p, 0)));
        assert(eaten_after_spec(eaten_step_spec(p), 0) == eaten_step_spec(p));
    } else {
        lemma_step_of_after(p, (k - 1) as nat);
        assert(eaten_after_spec(p, k + 1) == eaten_step_spec(eaten_after_spec(p, k)));
        assert(eaten_after_spec(eaten_step_spec(p), k) == eaten_step_spec(
            eaten_after_spec(eaten_step_spec(p), (k - 1) as nat),
        ));
    }
}

} // verus!
