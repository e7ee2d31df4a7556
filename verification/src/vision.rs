//! Sensing: the per-tick, per-observer set of nearby entities. Each entry
//! carries a copy of the seen entity and the distance to the observer;
//! the copy is transient and must be resolved back by id before any
//! mutation of the world.

use vstd::prelude::*;

use crate::ant::Ant;
use crate::food::FoodPellet;
use crate::vector2d::{dist_spec, in_range, Vector2D, COORD_LIMIT};

verus! {

/// A seen entity: a snapshot of another ant or of a food pellet.
#[derive(Clone, Copy)]
pub enum SeenObject {
    Ant(Ant),
    Food(FoodPellet),
}

/// One entry of an observer's vision: a seen entity and its distance from
/// the observer, in thousandths of a world unit, rounded down.
#[derive(Clone, Copy)]
pub struct Vision {
    pub object: SeenObject,
    pub distance: i64,
}

/// Every sighted entity lies within the coordinate bounds the fixed-point
/// kernels accept; the world guarantees this of everything it senses.
pub open spec fn vision_wf(v: Seq<Vision>) -> bool {
    forall|m: int|
        0 <= m < v.len() ==> match (#[trigger] v[m]).object {
            SeenObject::Ant(a) => in_range(a.position, COORD_LIMIT as int),
            SeenObject::Food(f) => in_range(f.position, COORD_LIMIT as int),
        }
}

/// The ant sightings an observer at `pos` collects from the first `k`
/// ants, skipping itself (index `i`): every other ant strictly within
/// `range`, in index order, tagged with its distance.
pub open spec fn ant_sightings_upto(
    ants: Seq<Ant>,
    i: int,
    pos: Vector2D,
    range: int,
    k: int,
) -> Seq<Vision>
    decreases k,
{
    if k <= 0 {
        Seq::empty()
    } else {
        let rest = ant_sightings_upto(ants, i, pos, range, k - 1);
        let d = dist_spec(pos, ants[k - 1].position);
        if k - 1 != i && d < range {
            rest.push(Vision { object: SeenObject::Ant(ants[k - 1]), distance: d as i64 })
        } else {
            rest
        }
    }
}

/// The food sightings an observer at `pos` collects from the first `k`
/// pellets: every pellet strictly within `range`, in index order.
pub open spec fn food_sightings_upto(
    food: Seq<FoodPellet>,
    pos: Vector2D,
    range: int,
    k: int,
) -> Seq<Vision>
    decreases k,
{
    if k <= 0 {
        Seq::empty()
    } else {
        let rest = food_sightings_upto(food, pos, range, k - 1);
        let d = dist_spec(pos, food[k - 1].position);
        if d < range {
            rest.push(Vision { object: SeenObject::Food(food[k - 1]), distance: d as i64 })
        } else {
            rest
        }
    }
}

/// Everything the ant at index `i` sees: first the other ants within
/// range, then the food pellets within range.
pub open spec fn vision_spec(
    ants: Seq<Ant>,
    i: int,
    food: Seq<FoodPellet>,
    range: int,
) -> Seq<Vision> {
    let pos = ants[i].position;
    ant_sightings_upto(ants, i, pos, range, ants.len() as int) + food_sightings_upto(
        food,
        pos,
        range,
        food.len() as int,
    )
}

/// Soundness of ant sensing: every collected ant sighting is a real ant,
/// not the observer, strictly within range, tagged with its true distance.
pub proof fn lemma_ant_sightings_sound(ants: Seq<Ant>, i: int, pos: Vector2D, range: int, k: int)
    requires
        k <= ants.len(),
    ensures
        forall|m: int|
            0 <= m < ant_sightings_upto(ants, i, pos, range, k).len()
                ==> exists|j: int|
                0 <= j < k && j != i && dist_spec(pos, ants[j].position) < range
                    && #[trigger] ant_sightings_upto(ants, i, pos, range, k)[m] == (Vision {
                    object: SeenObject::Ant(ants[j]),
                    distance: dist_spec(pos, ants[j].position) as i64,
                }),
    decreases k,
{
    if k > 0 {
        lemma_ant_sightings_sound(ants, i, pos, range, k - 1);
        let s = ant_sightings_upto(ants, i, pos, range, k);
        let rest = ant_sightings_upto(ants, i, pos, range, k - 1);
        let d = dist_spec(pos, ants[k - 1].position);
        if k - 1 != i && d < range {
            assert forall|m: int| 0 <= m < s.len() implies exists|j: int|
                0 <= j < k && j != i && dist_spec(pos, ants[j].position) < range
                    && #[trigger] s[m] == (Vision {
                    object: SeenObject::Ant(ants[j]),
                    distance: dist_spec(pos, ants[j].position) as i64,
                }) by {
                if m < rest.len() {
                    assert(s[m] == rest[m]);
                } else {
                    assert(s[m] == (Vision {
                        object: SeenObject::Ant(ants[k - 1]),
                        distance: d as i64,
                    }));
                }
            }
        }
    }
}

/// Completeness of ant sensing: every other ant strictly within range
/// appears among the collected sightings.
pub proof fn lemma_ant_sightings_complete(
    ants: Seq<Ant>,
    i: int,
    pos: Vector2D,
    range: int,
    k: int,
    j: int,
)
    requires
        0 <= j < k <= ants.len(),
        j != i,
        dist_spec(pos, ants[j].position) < range,
    ensures
        ant_sightings_upto(ants, i, pos, range, k).contains(
            Vision {
                object: SeenObject::Ant(ants[j]),
                distance: dist_spec(pos, ants[j].position) as i64,
            },
        ),
    decreases k,
{
    let s = ant_sightings_upto(ants, i, pos, range, k);
    let rest = ant_sightings_upto(ants, i, pos, range, k - 1);
    if j == k - 1 {
        assert(s[s.len() - 1] == (Vision {
            object: SeenObject::Ant(ants[j]),
            distance: dist_spec(pos, ants[j].position) as i64,
        }));
    } else {
        lemma_ant_sightings_complete(ants, i, pos, range, k - 1, j);
        let v = Vision {
            object: SeenObject::Ant(ants[j]),
            distance: dist_spec(pos, ants[j].position) as i64,
        };
        let m = choose|m: int| 0 <= m < rest.len() && rest[m] == v;
        assert(s[m] == v);
    }
}

/// Soundness of food sensing: every collected food sighting is a real
/// pellet strictly within range, tagged with its true distance.
pub proof fn lemma_food_sightings_sound(
    food: Seq<FoodPellet>,
    pos: Vector2D,
    range: int,
    k: int,
)
    requires
        k <= food.len(),
    ensures
        forall|m: int|
            0 <= m < food_sightings_upto(food, pos, range, k).len()
                ==> exists|j: int|
                0 <= j < k && dist_spec(pos, food[j].position) < range
                    && #[trigger] food_sightings_upto(food, pos, range, k)[m] == (Vision {
                    object: SeenObject::Food(food[j]),
                    distance: dist_spec(pos, food[j].position) as i64,
                }),
    decreases k,
{
    if k > 0 {
        lemma_food_sightings_sound(food, pos, range, k - 1);
        let s = food_sightings_upto(food, pos, range, k);
        let rest = food_sightings_upto(food, pos, range, k - 1);
        let d = dist_spec(pos, food[k - 1].position);
        if d < range {
            assert forall|m: int| 0 <= m < s.len() implies exists|j: int|
                0 <= j < k && dist_spec(pos, food[j].position) < range && #[trigger] s[m]
                    == (Vision {
                    object: SeenObject::Food(food[j]),
                    distance: dist_spec(pos, food[j].position) as i64,
                }) by {
                if m < rest.len() {
                    assert(s[m] == rest[m]);
                } else {
                    assert(s[m] == (Vision {
                        object: SeenObject::Food(food[k - 1]),
                        distance: d as i64,
                    }));
                }
            }
        }
    }
}

/// Completeness of food sensing: every pellet strictly within range
/// appears among the collected sightings.
pub proof fn lemma_food_sightings_complete(
    food: Seq<FoodPellet>,
    pos: Vector2D,
    range: int,
    k: int,
    j: int,
)
    requires
        0 <= j < k <= food.len(),
        dist_spec(pos, food[j].position) < range,
    ensures
        food_sightings_upto(food, pos, range, k).contains(
            Vision {
                object: SeenObject::Food(food[j]),
                distance: dist_spec(pos, food[j].position) as i64,
            },
        ),
    decreases k,
{
    let s = food_sightings_upto(food, pos, range, k);
    let rest = food_sightings_upto(food, pos, range, k - 1);
    if j == k - 1 {
        assert(s[s.len() - 1] == (Vision {
            object: SeenObject::Food(food[j]),
            distance: dist_spec(pos, food[j].position) as i64,
        }));
    } else {
        lemma_food_sightings_complete(food, pos, range, k - 1, j);
        let v = Vision {
            object: SeenObject::Food(food[j]),
            distance: dist_spec(pos, food[j].position) as i64,
        };
        let m = choose|m: int| 0 <= m < rest.len() && rest[m] == v;
        assert(s[m] == v);
    }
}

} // verus!
