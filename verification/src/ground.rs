//! The world: a bounded rectangle owning every ant, food pellet and nest,
//! the per-tick pipeline that advances them — sense, decide, act, upkeep,
//! boundary clamp, cleanup, spawn — and the id allocators that give each
//! entity a stable identity.

use vstd::prelude::*;

use crate::ant::{
    carry_pair_spec, eat_pair_spec, fresh_ant_spec, go_forward_spec, rotate_left_spec,
    rotate_right_spec, unload_spec, Ant, AntAction,
};
use crate::config::Config;
use crate::food::FoodPellet;
use crate::nest::{Nest, NestAction};
use crate::num::{clamp_spec, sat_sub_spec, sat_sub_u32};
use crate::sample::rand_below;
use crate::vector2d::{in_range, Vector2D, COORD_LIMIT};
use crate::vision::{
    ant_sightings_upto, food_sightings_upto, vision_spec, vision_wf, SeenObject, Vision,
};
use crate::{AntLogic, NestLogic};

verus! {

pub struct Ground {
    pub size: Vector2D,
    pub food: Vec<FoodPellet>,
    pub ants: Vec<Ant>,
    pub nests: Vec<Nest>,
    pub food_timer: u32,
    pub config: Config,
    pub next_food_id: usize,
    pub next_colony_id: usize,
    pub next_ant_id: usize,
}

/// A position lying inside the world rectangle.
pub open spec fn pos_in_world(size: Vector2D, p: Vector2D) -> bool {
    &&& 0 <= p.x <= size.x
    &&& 0 <= p.y <= size.y
}

/// A position clipped to the world rectangle: each coordinate is pulled
/// to the nearest edge on its own axis, and in-bounds coordinates are
/// untouched.
pub open spec fn boundary_clamp_spec(p: Vector2D, size: Vector2D) -> Vector2D {
    Vector2D {
        x: clamp_spec(p.x as int, 0, size.x as int) as i64,
        y: clamp_spec(p.y as int, 0, size.y as int) as i64,
    }
}

/// The boundary-clamp law: clamping a position twice gives the same
/// result as clamping it once, and an in-bounds position is unchanged.
pub proof fn lemma_boundary_clamp_idempotent(p: Vector2D, size: Vector2D)
    requires
        size.x >= 0,
        size.y >= 0,
    ensures
        boundary_clamp_spec(boundary_clamp_spec(p, size), size) == boundary_clamp_spec(
            p,
            size,
        ),
        pos_in_world(size, p) ==> boundary_clamp_spec(p, size) == p,
{
}

impl Ground {
    /// Every ant is well formed, inside the world, and carries an id the
    /// allocator has already handed out.
    pub open spec fn ants_wf(&self) -> bool {
        forall|k: int|
            0 <= k < self.ants@.len() ==> {
                let a = #[trigger] self.ants@[k];
                &&& a.wf()
                &&& pos_in_world(self.size, a.position)
                &&& a.id < self.next_ant_id
            }
    }

    /// No two ants share an id.
    pub open spec fn ant_ids_unique(&self) -> bool {
        forall|k1: int, k2: int|
            0 <= k1 < k2 < self.ants@.len() ==> #[trigger] self.ants@[k1].id
                != #[trigger] self.ants@[k2].id
    }

    /// Every pellet is inside the world and carries an allocated id.
    pub open spec fn food_wf(&self) -> bool {
        forall|k: int|
            0 <= k < self.food@.len() ==> {
                let f = #[trigger] self.food@[k];
                &&& pos_in_world(self.size, f.position)
                &&& f.id < self.next_food_id
            }
    }

    /// No two pellets share an id.
    pub open spec fn food_ids_unique(&self) -> bool {
        forall|k1: int, k2: int|
            0 <= k1 < k2 < self.food@.len() ==> #[trigger] self.food@[k1].id
                != #[trigger] self.food@[k2].id
    }

    /// Every nest is inside the world and carries an allocated id.
    pub open spec fn nests_wf(&self) -> bool {
        forall|k: int|
            0 <= k < self.nests@.len() ==> {
                let n = #[trigger] self.nests@[k];
                &&& pos_in_world(self.size, n.pos)
                &&& n.id < self.next_colony_id
            }
    }

    /// The world invariant: a positive, bounded rectangle, a running food
    /// countdown, a well-formed config, and well-formed entity
    /// collections with unique identities.
    pub open spec fn wf(&self) -> bool {
        &&& self.config.wf()
        &&& 1 <= self.size.x <= COORD_LIMIT
        &&& 1 <= self.size.y <= COORD_LIMIT
        &&& self.food_timer >= 1
        &&& self.ants_wf()
        &&& self.ant_ids_unique()
        &&& self.food_wf()
        &&& self.food_ids_unique()
        &&& self.nests_wf()
    }

    /// A fresh world of the given size: no entities, the default
    /// config, the food countdown primed from it, all id allocators at
    /// zero.
    pub fn new_empty(size: Vector2D) -> (r: Ground)
        requires
            1 <= size.x <= COORD_LIMIT,
            1 <= size.y <= COORD_LIMIT,
        ensures
            r.wf(),
            r.size == size,
            r.ants@.len() == 0,
            r.food@.len() == 0,
            r.nests@.len() == 0,
            r.food_timer == r.config.food.spawn_time,
            r.config == (Config {
                ants: crate::config::AntConfig::default_spec(),
                food: crate::config::FoodConfig::default_spec(),
                nests: crate::config::NestConfig::default_spec(),
                ..r.config
            }),
            r.next_food_id == 0,
            r.next_colony_id == 0,
            r.next_ant_id == 0,
    {
        let config = Config::new();
        let food_timer = config.food.spawn_time;
        Ground {
            size,
            food: Vec::new(),
            ants: Vec::new(),
            nests: Vec::new(),
            food_timer,
            config,
            next_food_id: 0,
            next_colony_id: 0,
            next_ant_id: 0,
        }
    }

    pub fn num_ants(&self) -> (r: usize)
        ensures
            r == self.ants@.len(),
    {
        self.ants.len()
    }

    pub fn num_foods(&self) -> (r: usize)
        ensures
            r == self.food@.len(),
    {
        self.food.len()
    }

    pub fn num_colonies(&self) -> (r: usize)
        ensures
            r == self.nests@.len(),
    {
        self.nests.len()
    }

    pub fn ant_list(&self) -> (r: &Vec<Ant>)
        ensures
            r@ == self.ants@,
    {
        &self.ants
    }

    pub fn nest_list(&self) -> (r: &Vec<Nest>)
        ensures
            r@ == self.nests@,
    {
        &self.nests
    }

    /// Restart the food countdown from the current config.
    pub fn reset_food_time(&mut self)
        ensures
            *final(self) == (Ground {
                food_timer: old(self).config.food.spawn_time,
                ..*old(self)
            }),
    {
        self.food_timer = self.config.food.spawn_time;
    }

    /// Clip an ant's position to the world rectangle, axis by axis; its
    /// heading and everything else are untouched.
    pub fn push_ant_into_boundary(ant: &mut Ant, size: Vector2D)
        requires
            size.x >= 0,
            size.y >= 0,
        ensures
            final(ant).position == boundary_clamp_spec(old(ant).position, size),
            *final(ant) == (Ant { position: final(ant).position, ..*old(ant) }),
    {
        if ant.position.x < 0 {
            let old_pos = ant.position.y;
            ant.position = Vector2D { x: 0, y: old_pos };
        }
        if ant.position.x > size.x {
            let old_pos = ant.position.y;
            ant.position = Vector2D { x: size.x, y: old_pos };
        }
        if ant.position.y < 0 {
            let old_pos = ant.position.x;
            ant.position = Vector2D { x: old_pos, y: 0 };
        }
        if ant.position.y > size.y {
            let old_pos = ant.position.x;
            ant.position = Vector2D { x: old_pos, y: size.y };
        }
    }

    /// Draw a uniform position inside the world rectangle.
    fn random_position(&self) -> (r: Vector2D)
        requires
            1 <= self.size.x <= COORD_LIMIT,
            1 <= self.size.y <= COORD_LIMIT,
        ensures
            pos_in_world(self.size, r),
    {
        let x: i64 = rand_below(self.size.x as u64) as i64;
        let y: i64 = rand_below(self.size.y as u64) as i64;
        Vector2D { x, y }
    }

    /// Scatter `amount` fresh pellets at uniform positions, each with the
    /// configured nutrition and bite size and a fresh id. (Spawning stops
    /// early only in the unreachable case of an exhausted id allocator.)
    pub fn generate_random_food(&mut self, amount: u32)
        requires
            old(self).wf(),
        ensures
            final(self).wf(),
            *final(self) == (Ground {
                food: final(self).food,
                next_food_id: final(self).next_food_id,
                ..*old(self)
            }),
            final(self).food@.len() >= old(self).food@.len(),
            final(self).food@.len() <= old(self).food@.len() + amount,
            old(self).next_food_id + amount <= usize::MAX ==> final(self).food@.len()
                == old(self).food@.len() + amount,
            forall|k: int|
                0 <= k < old(self).food@.len() ==> final(self).food@[k] == old(
                    self,
                ).food@[k],
            forall|k: int|
                old(self).food@.len() <= k < final(self).food@.len() ==> {
                    let f = #[trigger] final(self).food@[k];
                    &&& f.nutrition == old(self).config.food.nutrition
                    &&& f.bite_size == old(self).config.food.eaten_value
                    &&& f.id == old(self).next_food_id + (k - old(self).food@.len())
                    &&& pos_in_world(old(self).size, f.position)
                },
            final(self).next_food_id == old(self).next_food_id + (final(self).food@.len()
                - old(self).food@.len()),
    {
        let ghost base_len = self.food@.len();
        let ghost base_id = self.next_food_id;
        for it in 0..amount
            invariant
                self.wf(),
                *self == (Ground {
                    food: self.food,
                    next_food_id: self.next_food_id,
                    ..*old(self)
                }),
                self.food@.len() >= base_len,
                self.food@.len() <= base_len + it,
                base_id + it <= usize::MAX ==> self.food@.len() == base_len + it,
                forall|k: int| 0 <= k < base_len ==> self.food@[k] == old(self).food@[k],
                forall|k: int|
                    base_len <= k < self.food@.len() ==> {
                        let f = #[trigger] self.food@[k];
                        &&& f.nutrition == old(self).config.food.nutrition
                        &&& f.bite_size == old(self).config.food.eaten_value
                        &&& f.id == base_id + (k - base_len)
                        &&& pos_in_world(old(self).size, f.position)
                    },
                self.next_food_id == base_id + (self.food@.len() - base_len),
        {
            if self.next_food_id < usize::MAX {
                let pos = self.random_position();
                let new_food = FoodPellet {
                    position: pos,
                    nutrition: self.config.food.nutrition,
                    bite_size: self.config.food.eaten_value,
                    id: self.next_food_id,
                };
                self.food.push(new_food);
                self.next_food_id = self.next_food_id + 1;
            }
        }
    }

    /// Spawn `amount` fresh ants at `pos`, configured from the current
    /// ant config, each with a fresh id.
    pub fn generate_ants(&mut self, pos: Vector2D, amount: u32)
        requires
            old(self).wf(),
            pos_in_world(old(self).size, pos),
        ensures
            final(self).wf(),
            *final(self) == (Ground {
                ants: final(self).ants,
                next_ant_id: final(self).next_ant_id,
                ..*old(self)
            }),
            final(self).ants@.len() >= old(self).ants@.len(),
            final(self).ants@.len() <= old(self).ants@.len() + amount,
            old(self).next_ant_id + amount <= usize::MAX ==> final(self).ants@.len()
                == old(self).ants@.len() + amount,
            forall|k: int|
                0 <= k < old(self).ants@.len() ==> final(self).ants@[k] == old(
                    self,
                ).ants@[k],
            forall|k: int|
                old(self).ants@.len() <= k < final(self).ants@.len() ==> {
                    let a = #[trigger] final(self).ants@[k];
                    &&& a == fresh_ant_spec(
                        (old(self).next_ant_id + (k - old(self).ants@.len())) as usize,
                        old(self).config.ants,
                        pos,
                    )
                    &&& a.wf()
                },
            final(self).next_ant_id == old(self).next_ant_id + (final(self).ants@.len()
                - old(self).ants@.len()),
    {
        let ghost base_len = self.ants@.len();
        let ghost base_id = self.next_ant_id;
        for it in 0..amount
            invariant
                self.wf(),
                pos_in_world(self.size, pos),
                *self == (Ground {
                    ants: self.ants,
                    next_ant_id: self.next_ant_id,
                    ..*old(self)
                }),
                self.ants@.len() >= base_len,
                self.ants@.len() <= base_len + it,
                base_id + it <= usize::MAX ==> self.ants@.len() == base_len + it,
                forall|k: int| 0 <= k < base_len ==> self.ants@[k] == old(self).ants@[k],
                forall|k: int|
                    base_len <= k < self.ants@.len() ==> {
                        let a = #[trigger] self.ants@[k];
                        &&& a == fresh_ant_spec(
                            (base_id + (k - base_len)) as usize,
                            old(self).config.ants,
                            pos,
                        )
                        &&& a.wf()
                    },
                self.next_ant_id == base_id + (self.ants@.len() - base_len),
        {
            if self.next_ant_id < usize::MAX {
                let ant = Ant::new_at(self.next_ant_id, &self.config.ants, pos);
                self.ants.push(ant);
                self.next_ant_id = self.next_ant_id + 1;
            }
        }
    }

    /// Found one colony: a nest at a uniform position, funded with the
    /// configured starting energy.
    pub fn generate_colonies(&mut self)
        requires
            old(self).wf(),
        ensures
            final(self).wf(),
            *final(self) == (Ground {
                nests: final(self).nests,
                next_colony_id: final(self).next_colony_id,
                ..*old(self)
            }),
            old(self).next_colony_id < usize::MAX ==> {
                &&& final(self).nests@.len() == old(self).nests@.len() + 1
                &&& final(self).nests@.last().energy == old(self).config.nests.start_energy
                &&& final(self).nests@.last().rounds_to_energy_loss == old(
                    self,
                ).config.nests.energy_loss_rounds
                &&& final(self).nests@.last().id == old(self).next_colony_id
                &&& pos_in_world(old(self).size, final(self).nests@.last().pos)
            },
            forall|k: int|
                0 <= k < old(self).nests@.len() ==> final(self).nests@[k] == old(
                    self,
                ).nests@[k],
            final(self).next_colony_id == old(self).next_colony_id + (
            final(self).nests@.len() - old(self).nests@.len()),
    {
        if self.next_colony_id < usize::MAX {
            let pos = self.random_position();
            let new_colony = Nest {
                id: self.next_colony_id,
                pos,
                energy: self.config.nests.start_energy,
                rounds_to_energy_loss: self.config.nests.energy_loss_rounds,
            };
            self.nests.push(new_colony);
            self.next_colony_id = self.next_colony_id + 1;
        }
    }

    /// Throw away every entity, reset the id allocators, and repopulate:
    /// one colony with the configured starting energy at a random
    /// in-bounds position, and the configured starting amount of fresh
    /// pellets, all with identities starting over from zero.
    pub fn start_new_round(&mut self)
        requires
            old(self).wf(),
        ensures
            final(self).wf(),
            final(self).ants@.len() == 0,
            final(self).nests@.len() == 1,
            final(self).nests@[0].id == 0,
            final(self).nests@[0].energy == old(self).config.nests.start_energy,
            final(self).nests@[0].rounds_to_energy_loss == old(
                self,
            ).config.nests.energy_loss_rounds,
            pos_in_world(old(self).size, final(self).nests@[0].pos),
            final(self).food@.len() == old(self).config.food.start_amount,
            forall|k: int|
                0 <= k < final(self).food@.len() ==> {
                    let f = #[trigger] final(self).food@[k];
                    &&& f.id == k
                    &&& f.nutrition == old(self).config.food.nutrition
                    &&& f.bite_size == old(self).config.food.eaten_value
                    &&& pos_in_world(old(self).size, f.position)
                },
            final(self).next_ant_id == 0,
            final(self).next_colony_id == 1,
            final(self).next_food_id == old(self).config.food.start_amount,
            final(self).size == old(self).size,
            final(self).config == old(self).config,
            final(self).food_timer == old(self).food_timer,
    {
        self.ants = Vec::new();
        self.food = Vec::new();
        self.nests = Vec::new();

        self.next_food_id = 0;
        self.next_colony_id = 0;
        self.next_ant_id = 0;

        self.generate_colonies();
        let amount = self.config.food.start_amount;
        self.generate_random_food(amount);
    }
}

/// Energy after one upkeep tick: when the countdown is due, the loss is
/// deducted (bottoming out at zero); otherwise the energy is untouched.
pub open spec fn upkeep_energy_spec(energy: int, countdown: int, loss: int) -> int {
    if countdown <= 1 {
        sat_sub_spec(energy, loss)
    } else {
        energy
    }
}

/// The countdown after one upkeep tick: reset when due, else one less.
pub open spec fn upkeep_countdown_spec(countdown: int, rounds: int) -> int {
    if countdown <= 1 {
        rounds
    } else {
        countdown - 1
    }
}

/// Deduct an ant's periodic cost of living, gated by its countdown. The
/// loss amount and the reset value are read from the config at each
/// tick, so a live change to the rounds setting takes effect at the
/// countdown's next natural reset, not before.
fn apply_ant_upkeep(ant: &mut Ant, loss: u32, rounds: u32)
    ensures
        final(ant).energy == upkeep_energy_spec(
            old(ant).energy as int,
            old(ant).rounds_to_energy_loss as int,
            loss as int,
        ),
        final(ant).rounds_to_energy_loss == upkeep_countdown_spec(
            old(ant).rounds_to_energy_loss as int,
            rounds as int,
        ),
        final(ant).energy <= old(ant).energy,
        *final(ant) == (Ant {
            energy: final(ant).energy,
            rounds_to_energy_loss: final(ant).rounds_to_energy_loss,
            ..*old(ant)
        }),
{
    if ant.rounds_to_energy_loss <= 1 {
        ant.energy = sat_sub_u32(ant.energy, loss);
        ant.rounds_to_energy_loss = rounds;
    } else {
        ant.rounds_to_energy_loss = ant.rounds_to_energy_loss - 1;
    }
}

/// Deduct a nest's periodic cost of living, gated by its countdown.
fn apply_nest_upkeep(nest: &mut Nest, loss: u32, rounds: u32)
    ensures
        final(nest).energy == upkeep_energy_spec(
            old(nest).energy as int,
            old(nest).rounds_to_energy_loss as int,
            loss as int,
        ),
        final(nest).rounds_to_energy_loss == upkeep_countdown_spec(
            old(nest).rounds_to_energy_loss as int,
            rounds as int,
        ),
        final(nest).energy <= old(nest).energy,
        *final(nest) == (Nest {
            energy: final(nest).energy,
            rounds_to_energy_loss: final(nest).rounds_to_energy_loss,
            ..*old(nest)
        }),
{
    if nest.rounds_to_energy_loss <= 1 {
        nest.energy = sat_sub_u32(nest.energy, loss);
        nest.rounds_to_energy_loss = rounds;
    } else {
        nest.rounds_to_energy_loss = nest.rounds_to_energy_loss - 1;
    }
}

/// The index of the first pellet with the given id, searching from `k`.
pub open spec fn find_food_from(food: Seq<FoodPellet>, id: usize, k: int) -> Option<int>
    decreases food.len() - k,
{
    if k < 0 || k >= food.len() {
        None
    } else if food[k].id == id {
        Some(k)
    } else {
        find_food_from(food, id, k + 1)
    }
}

/// Find the authoritative pellet carrying `id`, if any: the id-resolution
/// step that turns a sensed copy back into a live pellet.
fn find_food_index(food: &Vec<FoodPellet>, id: usize) -> (r: Option<usize>)
    ensures
        match r {
            Some(j) => j < food@.len() && find_food_from(food@, id, 0) == Some(j as int),
            None => find_food_from(food@, id, 0) is None,
        },
{
    let n = food.len();
    for k in 0..n
        invariant
            n == food@.len(),
            find_food_from(food@, id, 0) == find_food_from(food@, id, k as int),
    {
        if food[k].id == id {
            return Some(k);
        }
    }
    None
}

/// The ant at `i` and the food collection after one action is applied:
/// movement and turning change only the ant; the food actions resolve the
/// named pellet by id and mutate the authoritative pellet, with no effect
/// at all when no pellet carries that id any more.
pub open spec fn apply_action_spec(
    a: Ant,
    food: Seq<FoodPellet>,
    action: AntAction,
    cfg: crate::config::AntConfig,
) -> (Ant, Seq<FoodPellet>) {
    match action {
        AntAction::Nothing => (a, food),
        AntAction::GoForward(l) => (go_forward_spec(a, l as int), food),
        AntAction::RotateLeft(x) => (rotate_left_spec(a, x as int), food),
        AntAction::RotateRight(x) => (rotate_right_spec(a, x as int), food),
        AntAction::EatFood(f) => match find_food_from(food, f.id, 0) {
            Option::None => (a, food),
            Option::Some(j) => {
                let (a2, f2) = eat_pair_spec(a, food[j]);
                (a2, food.update(j, f2))
            },
        },
        AntAction::CarryFood(f) => match find_food_from(food, f.id, 0) {
            Option::None => (a, food),
            Option::Some(j) => {
                let (a2, f2) = carry_pair_spec(a, food[j], cfg);
                (a2, food.update(j, f2))
            },
        },
        AntAction::UnloadFood => (unload_spec(a), food),
    }
}

impl Ground {
    /// Apply one action on behalf of the ant at index `i`.
    fn apply_action(&mut self, i: usize, action: AntAction)
        requires
            old(self).wf(),
            i < old(self).ants@.len(),
        ensures
            ({
                let (a2, food2) = apply_action_spec(
                    old(self).ants@[i as int],
                    old(self).food@,
                    action,
                    old(self).config.ants,
                );
                &&& final(self).ants@ == old(self).ants@.update(i as int, a2)
                &&& final(self).food@ == food2
            }),
            *final(self) == (Ground {
                ants: final(self).ants,
                food: final(self).food,
                ..*old(self)
            }),
            final(self).ants@[i as int].wf(),
            in_range(final(self).ants@[i as int].position, 3_000_000_000),
            final(self).ants@[i as int].id == old(self).ants@[i as int].id,
            final(self).ants@[i as int] == (Ant {
                position: final(self).ants@[i as int].position,
                rotation: final(self).ants@[i as int].rotation,
                energy: final(self).ants@[i as int].energy,
                carrying: final(self).ants@[i as int].carrying,
                ..old(self).ants@[i as int]
            }),
            final(self).ants@.len() == old(self).ants@.len(),
            forall|k: int|
                0 <= k < final(self).ants@.len() && k != i ==> final(self).ants@[k] == old(
                    self,
                ).ants@[k],
            final(self).food@.len() == old(self).food@.len(),
            forall|k: int|
                0 <= k < final(self).food@.len() ==> {
                    let f = #[trigger] final(self).food@[k];
                    &&& f.id == old(self).food@[k].id
                    &&& f.position == old(self).food@[k].position
                    &&& f.bite_size == old(self).food@[k].bite_size
                    &&& f.nutrition <= old(self).food@[k].nutrition
                },
    {
        match action {
            AntAction::Nothing => {
                proof {
                    assert(self.ants@ =~= self.ants@.update(i as int, self.ants@[i as int]));
                }
            },
            AntAction::GoForward(l) => {
                let mut a = self.ants[i];
                a.go_forward(l);
                self.ants.set(i, a);
            },
            AntAction::RotateLeft(x) => {
                let mut a = self.ants[i];
                a.rotate_left(x);
                self.ants.set(i, a);
            },
            AntAction::RotateRight(x) => {
                let mut a = self.ants[i];
                a.rotate_right(x);
                self.ants.set(i, a);
            },
            AntAction::EatFood(f) => {
                match find_food_index(&self.food, f.id) {
                    Option::Some(j) => {
                        let mut a = self.ants[i];
                        let mut p = self.food[j];
                        a.eat_food(&mut p);
                        self.ants.set(i, a);
                        self.food.set(j, p);
                    },
                    Option::None => {
                        proof {
                            assert(self.ants@ =~= self.ants@.update(
                                i as int,
                                self.ants@[i as int],
                            ));
                        }
                    },
                }
            },
            AntAction::CarryFood(f) => {
                match find_food_index(&self.food, f.id) {
                    Option::Some(j) => {
                        let mut a = self.ants[i];
                        let mut p = self.food[j];
                        a.carry_food(&mut p, &self.config.ants);
                        self.ants.set(i, a);
                        self.food.set(j, p);
                    },
                    Option::None => {
                        proof {
                            assert(self.ants@ =~= self.ants@.update(
                                i as int,
                                self.ants@[i as int],
                            ));
                        }
                    },
                }
            },
            AntAction::UnloadFood => {
                let mut a = self.ants[i];
                let _ = a.unload_food(&self.config.ants);
                self.ants.set(i, a);
            },
        }
    }

    /// What the ant at index `i` sees this tick: every other ant and every
    /// pellet strictly within the configured vision range, in collection
    /// order, each tagged with its distance.
    pub fn vision_for(&self, i: usize) -> (r: Vec<Vision>)
        requires
            self.wf(),
            i < self.ants@.len(),
        ensures
            r@ == vision_spec(
                self.ants@,
                i as int,
                self.food@,
                self.config.ants.vision_range as int,
            ),
            vision_wf(r@),
    {
        let pos = self.ants[i].position;
        let range = self.config.ants.vision_range;
        let mut close_by: Vec<Vision> = Vec::new();
        let num_ants = self.ants.len();
        let num_foods = self.food.len();
        for j in 0..num_ants
            invariant
                self.wf(),
                i < self.ants@.len(),
                num_ants == self.ants@.len(),
                pos == self.ants@[i as int].position,
                range == self.config.ants.vision_range,
                close_by@ == ant_sightings_upto(
                    self.ants@,
                    i as int,
                    pos,
                    range as int,
                    j as int,
                ),
                vision_wf(close_by@),
        {
            if j != i {
                let other_ant = self.ants[j];
                let distance = pos.distance(other_ant.position);
                if distance < range {
                    close_by.push(Vision { object: SeenObject::Ant(other_ant), distance });
                }
            }
        }
        for j in 0..num_foods
            invariant
                self.wf(),
                i < self.ants@.len(),
                num_foods == self.food@.len(),
                pos == self.ants@[i as int].position,
                range == self.config.ants.vision_range,
                close_by@ == ant_sightings_upto(
                    self.ants@,
                    i as int,
                    pos,
                    range as int,
                    self.ants@.len() as int,
                ) + food_sightings_upto(self.food@, pos, range as int, j as int),
                vision_wf(close_by@),
        {
            let food_item = self.food[j];
            let distance = pos.distance(food_item.position);
            if distance < range {
                close_by.push(Vision { object: SeenObject::Food(food_item), distance });
            }
        }
        close_by
    }

    /// One ant's own scalars after the rest of its turn: the post-action
    /// ant pays its countdown-gated upkeep and is clipped back into the
    /// world rectangle.
    pub open spec fn ant_tick_spec(a2: Ant, cfg: crate::config::AntConfig, size: Vector2D) -> Ant {
        let a3 = Ant {
            energy: upkeep_energy_spec(
                a2.energy as int,
                a2.rounds_to_energy_loss as int,
                cfg.energy_loss_amount as int,
            ) as u32,
            rounds_to_energy_loss: upkeep_countdown_spec(
                a2.rounds_to_energy_loss as int,
                cfg.energy_loss_rounds as int,
            ) as u32,
            ..a2
        };
        Ant { position: boundary_clamp_spec(a3.position, size), ..a3 }
    }

    /// One ant's whole turn: sense, ask the policy, apply the returned
    /// action, pay upkeep, clip to the world. Everything after the policy
    /// call is pinned exactly; only which action came back is open.
    fn tick_ant<F: AntLogic>(&mut self, i: usize, ant_func: &mut F)
        requires
            old(self).wf(),
            i < old(self).ants@.len(),
        ensures
            final(self).wf(),
            *final(self) == (Ground {
                ants: final(self).ants,
                food: final(self).food,
                ..*old(self)
            }),
            final(self).ants@.len() == old(self).ants@.len(),
            forall|k: int|
                0 <= k < final(self).ants@.len() && k != i
                    ==> #[trigger] final(self).ants@[k] == old(self).ants@[k],
            final(self).ants@[i as int].id == old(self).ants@[i as int].id,
            final(self).ants@[i as int].rounds_to_energy_loss == upkeep_countdown_spec(
                old(self).ants@[i as int].rounds_to_energy_loss as int,
                old(self).config.ants.energy_loss_rounds as int,
            ),
            final(self).food@.len() == old(self).food@.len(),
            forall|k: int|
                0 <= k < final(self).food@.len() ==> {
                    let f = #[trigger] final(self).food@[k];
                    &&& f.id == old(self).food@[k].id
                    &&& f.position == old(self).food@[k].position
                    &&& f.bite_size == old(self).food@[k].bite_size
                    &&& f.nutrition <= old(self).food@[k].nutrition
                },
            exists|action: AntAction|
                {
                    let (a2, food2) = #[trigger] apply_action_spec(
                        old(self).ants@[i as int],
                        old(self).food@,
                        action,
                        old(self).config.ants,
                    );
                    &&& final(self).ants@ == old(self).ants@.update(
                        i as int,
                        Ground::ant_tick_spec(a2, old(self).config.ants, old(self).size),
                    )
                    &&& final(self).food@ == food2
                },
    {
        let close_by = self.vision_for(i);
        let ant_action = ant_func.update(&self.ants[i], &close_by);
        let ghost act = ant_action;
        self.apply_action(i, ant_action);
        let ghost mid = *self;

        let mut a = self.ants[i];
        apply_ant_upkeep(
            &mut a,
            self.config.ants.energy_loss_amount,
            self.config.ants.energy_loss_rounds,
        );
        Ground::push_ant_into_boundary(&mut a, self.size);
        self.ants.set(i, a);
        proof {
            let (a2, food2) = apply_action_spec(
                old(self).ants@[i as int],
                old(self).food@,
                act,
                old(self).config.ants,
            );
            assert(mid.ants@[i as int] == a2);
            assert(self.ants@[i as int] == Ground::ant_tick_spec(
                a2,
                old(self).config.ants,
                old(self).size,
            ));
            assert(self.ants@ =~= old(self).ants@.update(
                i as int,
                Ground::ant_tick_spec(a2, old(self).config.ants, old(self).size),
            ));
        }
    }

    /// The ant phase: each ant that was alive at the start of the phase, in
    /// collection order, takes its whole turn (`tick_ant`): it senses, is
    /// asked for an action, has the action applied, pays its countdown-gated
    /// upkeep, and is clipped back into the world. Earlier ants' effects are
    /// visible to later ants in the same tick.
    fn update_ants<F: AntLogic>(&mut self, ant_func: &mut F)
        requires
            old(self).wf(),
        ensures
            final(self).wf(),
            *final(self) == (Ground {
                ants: final(self).ants,
                food: final(self).food,
                ..*old(self)
            }),
            final(self).ants@.len() == old(self).ants@.len(),
            forall|k: int|
                0 <= k < final(self).ants@.len() ==> #[trigger] final(self).ants@[k].id
                    == old(self).ants@[k].id,
            forall|k: int|
                0 <= k < final(self).ants@.len()
                    ==> #[trigger] final(self).ants@[k].rounds_to_energy_loss
                    == upkeep_countdown_spec(
                    old(self).ants@[k].rounds_to_energy_loss as int,
                    old(self).config.ants.energy_loss_rounds as int,
                ),
            final(self).food@.len() == old(self).food@.len(),
            forall|k: int|
                0 <= k < final(self).food@.len() ==> {
                    let f = #[trigger] final(self).food@[k];
                    &&& f.id == old(self).food@[k].id
                    &&& f.position == old(self).food@[k].position
                    &&& f.bite_size == old(self).food@[k].bite_size
                    &&& f.nutrition <= old(self).food@[k].nutrition
                },
            old(self).ants@.len() == 0 ==> final(self).ants@ == old(self).ants@
                && final(self).food@ == old(self).food@,
    {
        let num_ants = self.ants.len();
        for i in 0..num_ants
            invariant
                self.wf(),
                *self == (Ground { ants: self.ants, food: self.food, ..*old(self) }),
                num_ants == self.ants@.len(),
                self.ants@.len() == old(self).ants@.len(),
                forall|k: int|
                    i <= k < self.ants@.len() ==> #[trigger] self.ants@[k] == old(
                        self,
                    ).ants@[k],
                forall|k: int|
                    0 <= k < self.ants@.len() ==> #[trigger] self.ants@[k].id == old(
                        self,
                    ).ants@[k].id,
                forall|k: int|
                    0 <= k < i ==> #[trigger] self.ants@[k].rounds_to_energy_loss
                        == upkeep_countdown_spec(
                        old(self).ants@[k].rounds_to_energy_loss as int,
                        old(self).config.ants.energy_loss_rounds as int,
                    ),
                self.food@.len() == old(self).food@.len(),
                forall|k: int|
                    0 <= k < self.food@.len() ==> {
                        let f = #[trigger] self.food@[k];
                        &&& f.id == old(self).food@[k].id
                        &&& f.position == old(self).food@[k].position
                        &&& f.bite_size == old(self).food@[k].bite_size
                        &&& f.nutrition <= old(self).food@[k].nutrition
                    },
                num_ants == 0 ==> self.ants@ == old(self).ants@ && self.food@ == old(
                    self,
                ).food@,
        {
            self.tick_ant(i, ant_func);
        }
    }

    /// How many ants a nest funds when asked for `num`: one per spawn
    /// cost of five hundred, as long as the energy stays above the cost
    /// before each spawn and ants remain to be funded.
    pub open spec fn spawn_count_spec(energy: int, num: int) -> int
        decreases num,
    {
        if energy > 500 && num > 0 {
            1 + Ground::spawn_count_spec(energy - 500, num - 1)
        } else {
            0
        }
    }

    /// A nest never spawns more ants than asked, and spawning alone never
    /// drives a live nest's energy to zero.
    pub proof fn lemma_spawn_count(energy: int, num: int)
        requires
            num >= 0,
        ensures
            0 <= Ground::spawn_count_spec(energy, num) <= num,
            energy > 0 ==> energy - 500 * Ground::spawn_count_spec(energy, num) > 0,
            energy <= 0 ==> Ground::spawn_count_spec(energy, num) == 0,
        decreases num,
    {
        if energy > 500 && num > 0 {
            Ground::lemma_spawn_count(energy - 500, num - 1);
        }
    }

    /// Apply one nest's spawn decision: while the nest holds more than
    /// the spawn cost and ants remain to be funded, found one ant at the
    /// nest's position with a fresh id and debit the cost.
    fn apply_nest_action(&mut self, i: usize, num_to_spawn: usize)
        requires
            old(self).wf(),
            i < old(self).nests@.len(),
        ensures
            final(self).wf(),
            *final(self) == (Ground {
                ants: final(self).ants,
                nests: final(self).nests,
                next_ant_id: final(self).next_ant_id,
                ..*old(self)
            }),
            final(self).nests@.len() == old(self).nests@.len(),
            forall|k: int|
                0 <= k < final(self).nests@.len() && k != i ==> final(self).nests@[k]
                    == old(self).nests@[k],
            ({
                let spawned = Ground::spawn_count_spec(
                    old(self).nests@[i as int].energy as int,
                    num_to_spawn as int,
                );
                &&& final(self).nests@[i as int] == (Nest {
                    energy: (old(self).nests@[i as int].energy - 500 * spawned) as u32,
                    ..old(self).nests@[i as int]
                })
                &&& old(self).next_ant_id + spawned <= usize::MAX ==> final(self).ants@.len()
                    == old(self).ants@.len() + spawned
                &&& final(self).ants@.len() <= old(self).ants@.len() + spawned
            }),
            final(self).ants@.len() >= old(self).ants@.len(),
            forall|m: int|
                0 <= m < old(self).ants@.len() ==> #[trigger] final(self).ants@[m] == old(
                    self,
                ).ants@[m],
            forall|m: int|
                old(self).ants@.len() <= m < final(self).ants@.len()
                    ==> #[trigger] final(self).ants@[m] == fresh_ant_spec(
                    (old(self).next_ant_id + (m - old(self).ants@.len())) as usize,
                    old(self).config.ants,
                    old(self).nests@[i as int].pos,
                ),
            final(self).next_ant_id == old(self).next_ant_id + (
            final(self).ants@.len() - old(self).ants@.len()),
    {
        let ghost e0 = self.nests@[i as int].energy as int;
        let ghost n0 = num_to_spawn as int;
        let ghost base_len = self.ants@.len() as int;
        let ghost base_id = self.next_ant_id as int;
        proof {
            Ground::lemma_spawn_count(e0, n0);
        }
        let mut remaining = num_to_spawn;
        let ghost mut done: int = 0;
        while self.nests[i].energy > 500 && remaining > 0
            invariant
                self.wf(),
                i < self.nests@.len(),
                *self == (Ground {
                    ants: self.ants,
                    nests: self.nests,
                    next_ant_id: self.next_ant_id,
                    ..*old(self)
                }),
                self.nests@.len() == old(self).nests@.len(),
                forall|k: int|
                    0 <= k < self.nests@.len() && k != i ==> #[trigger] self.nests@[k]
                        == old(self).nests@[k],
                e0 == old(self).nests@[i as int].energy as int,
                n0 == num_to_spawn as int,
                base_len == old(self).ants@.len() as int,
                base_id == old(self).next_ant_id as int,
                0 <= done,
                done + remaining <= n0,
                Ground::spawn_count_spec(e0, n0) == done + Ground::spawn_count_spec(
                    self.nests@[i as int].energy as int,
                    remaining as int,
                ),
                self.nests@[i as int] == (Nest {
                    energy: (e0 - 500 * done) as u32,
                    ..old(self).nests@[i as int]
                }),
                e0 - 500 * done > 0 || done == 0,
                self.ants@.len() >= base_len,
                self.ants@.len() <= base_len + done,
                base_id + done <= usize::MAX ==> self.ants@.len() == base_len + done,
                forall|m: int|
                    0 <= m < base_len ==> #[trigger] self.ants@[m] == old(self).ants@[m],
                forall|m: int|
                    base_len <= m < self.ants@.len() ==> #[trigger] self.ants@[m]
                        == fresh_ant_spec(
                        (base_id + (m - base_len)) as usize,
                        old(self).config.ants,
                        old(self).nests@[i as int].pos,
                    ),
                self.next_ant_id == base_id + (self.ants@.len() - base_len),
            decreases remaining,
        {
            let pos = self.nests[i].pos;
            self.generate_ants(pos, 1);
            let mut n = self.nests[i];
            n.energy = n.energy - 500;
            self.nests.set(i, n);
            remaining = remaining - 1;
            proof {
                done = done + 1;
            }
        }
    }

    /// The nest phase: each nest, in collection order, is asked for an
    /// action; a spawn decision founds ants at the nest (`apply_nest_action`)
    /// with the cost debited per ant; then the nest pays its countdown-gated
    /// upkeep. Each nest's energy and countdown follow `nest_tick_rel`
    /// exactly; only the funded amount depends on the supplied policy.
    fn update_nests<G: NestLogic>(&mut self, nest_func: &mut G)
        requires
            old(self).wf(),
        ensures
            final(self).wf(),
            *final(self) == (Ground {
                ants: final(self).ants,
                nests: final(self).nests,
                next_ant_id: final(self).next_ant_id,
                ..*old(self)
            }),
            final(self).nests@.len() == old(self).nests@.len(),
            forall|k: int|
                0 <= k < final(self).nests@.len() ==> {
                    let n = #[trigger] final(self).nests@[k];
                    &&& n.id == old(self).nests@[k].id
                    &&& n.pos == old(self).nests@[k].pos
                    &&& n.energy <= old(self).nests@[k].energy
                },
            forall|k: int|
                0 <= k < final(self).nests@.len() ==> nest_tick_rel(
                    old(self).nests@[k],
                    #[trigger] final(self).nests@[k],
                    old(self).config.nests,
                ),
            final(self).ants@.len() >= old(self).ants@.len(),
            forall|k: int|
                0 <= k < old(self).ants@.len() ==> #[trigger] final(self).ants@[k] == old(
                    self,
                ).ants@[k],
            forall|m: int|
                old(self).ants@.len() <= m < final(self).ants@.len()
                    ==> spawned_at_some_nest(
                    #[trigger] final(self).ants@[m],
                    (old(self).next_ant_id + (m - old(self).ants@.len())) as usize,
                    old(self).config.ants,
                    old(self).nests@,
                ),
            final(self).next_ant_id == old(self).next_ant_id + (
            final(self).ants@.len() - old(self).ants@.len()),
            old(self).nests@.len() == 0 ==> final(self).ants@ == old(self).ants@,
    {
        let num = self.nests.len();
        for i in 0..num
            invariant
                self.wf(),
                *self == (Ground {
                    ants: self.ants,
                    nests: self.nests,
                    next_ant_id: self.next_ant_id,
                    ..*old(self)
                }),
                num == self.nests@.len(),
                self.nests@.len() == old(self).nests@.len(),
                forall|k: int|
                    i <= k < self.nests@.len() ==> #[trigger] self.nests@[k] == old(
                        self,
                    ).nests@[k],
                forall|k: int|
                    0 <= k < i ==> {
                        let n = #[trigger] self.nests@[k];
                        &&& n.id == old(self).nests@[k].id
                        &&& n.pos == old(self).nests@[k].pos
                        &&& n.energy <= old(self).nests@[k].energy
                    },
                forall|k: int|
                    0 <= k < i ==> nest_tick_rel(
                        old(self).nests@[k],
                        #[trigger] self.nests@[k],
                        old(self).config.nests,
                    ),
                self.ants@.len() >= old(self).ants@.len(),
                forall|k: int|
                    0 <= k < old(self).ants@.len() ==> #[trigger] self.ants@[k] == old(
                        self,
                    ).ants@[k],
                forall|m: int|
                    old(self).ants@.len() <= m < self.ants@.len()
                        ==> spawned_at_some_nest(
                        #[trigger] self.ants@[m],
                        (old(self).next_ant_id + (m - old(self).ants@.len())) as usize,
                        old(self).config.ants,
                        old(self).nests@,
                    ),
                self.next_ant_id == old(self).next_ant_id + (
                self.ants@.len() - old(self).ants@.len()),
                num == 0 ==> self.ants@ == old(self).ants@,
        {
            let ghost pre_nest = self.nests@[i as int];
            let ghost pre_ants_len = self.ants@.len() as int;
            let nest_action = nest_func.update(&self.nests[i]);

            let ghost spawned = match nest_action {
                NestAction::Nothing => 0int,
                NestAction::SpawnAnts(n) => Ground::spawn_count_spec(
                    pre_nest.energy as int,
                    n as int,
                ),
            };
            match nest_action {
                NestAction::Nothing => {},
                NestAction::SpawnAnts(num_to_spawn) => {
                    proof {
                        Ground::lemma_spawn_count(
                            pre_nest.energy as int,
                            num_to_spawn as int,
                        );
                    }
                    self.apply_nest_action(i, num_to_spawn);
                },
            }

            let mut n = self.nests[i];
            apply_nest_upkeep(
                &mut n,
                self.config.nests.energy_loss_amount,
                self.config.nests.energy_loss_rounds,
            );
            self.nests.set(i, n);
            proof {
                assert(debited_energy(pre_nest.energy as int, spawned) == pre_nest.energy
                    - 500 * spawned);
                assert(nest_tick_rel(
                    pre_nest,
                    self.nests@[i as int],
                    old(self).config.nests,
                ));
                assert forall|m: int|
                    old(self).ants@.len() <= m < self.ants@.len() implies
                    spawned_at_some_nest(
                    #[trigger] self.ants@[m],
                    (old(self).next_ant_id + (m - old(self).ants@.len())) as usize,
                    old(self).config.ants,
                    old(self).nests@,
                ) by {
                    if m >= pre_ants_len {
                        assert(self.ants@[m] == fresh_ant_spec(
                            (old(self).next_ant_id + (m - old(self).ants@.len())) as usize,
                            old(self).config.ants,
                            old(self).nests@[i as int].pos,
                        ));
                    }
                }
            }
        }
    }
}

/// The exact one-tick step of a nest's own scalars, up to the policy's
/// funded amount `s`: the spawn loop debits five hundred per funded ant
/// (never taking a live nest to zero by spawning alone), and then the
/// countdown-gated upkeep applies. Identity and position never change.
pub open spec fn nest_tick_rel(pre: Nest, post: Nest, cfg: crate::config::NestConfig) -> bool {
    exists|s: int|
        #![trigger debited_energy(pre.energy as int, s)]
        {
            let e1 = debited_energy(pre.energy as int, s);
            &&& 0 <= s
            &&& e1 >= 0
            &&& (pre.energy > 0 ==> e1 > 0)
            &&& post == (Nest {
                energy: upkeep_energy_spec(
                    e1,
                    pre.rounds_to_energy_loss as int,
                    cfg.energy_loss_amount as int,
                ) as u32,
                rounds_to_energy_loss: upkeep_countdown_spec(
                    pre.rounds_to_energy_loss as int,
                    cfg.energy_loss_rounds as int,
                ) as u32,
                ..pre
            })
        }
}

/// A nest's energy after funding `s` ants.
pub open spec fn debited_energy(energy: int, s: int) -> int {
    energy - 500 * s
}

/// The ant at `m` was founded by one of the nests: it is a fresh ant,
/// with the given id and config, standing at some nest's position.
pub open spec fn spawned_at_some_nest(
    a: Ant,
    id: usize,
    cfg: crate::config::AntConfig,
    nests: Seq<Nest>,
) -> bool {
    exists|j: int| 0 <= j < nests.len() && a == fresh_ant_spec(id, cfg, #[trigger] nests[j].pos)
}

/// The ants that survive cleanup: exactly those with energy left.
pub open spec fn surviving_ants(s: Seq<Ant>) -> Seq<Ant> {
    s.filter(|a: Ant| a.energy > 0)
}

/// The pellets that survive cleanup: exactly those with nutrition left.
pub open spec fn surviving_food(s: Seq<FoodPellet>) -> Seq<FoodPellet> {
    s.filter(|f: FoodPellet| f.nutrition > 0)
}

/// The nests that survive cleanup: exactly those with energy left.
pub open spec fn surviving_nests(s: Seq<Nest>) -> Seq<Nest> {
    s.filter(|n: Nest| n.energy > 0)
}

/// The cleanup-correctness law: after cleanup, every ant in the list has
/// energy left, and every ant that had energy left is still in the list —
/// an ant whose energy was driven to zero is gone.
pub proof fn lemma_cleanup_correct(s: Seq<Ant>)
    ensures
        forall|m: int|
            0 <= m < surviving_ants(s).len() ==> #[trigger] surviving_ants(s)[m].energy
                > 0,
        forall|j: int|
            0 <= j < s.len() && s[j].energy > 0 ==> surviving_ants(s).contains(
                #[trigger] s[j],
            ),
{
    assert forall|m: int|
        0 <= m < surviving_ants(s).len() implies #[trigger] surviving_ants(s)[m].energy
        > 0 by {
        s.lemma_filter_pred(|a: Ant| a.energy > 0, m);
    }
    assert forall|j: int|
        0 <= j < s.len() && s[j].energy > 0 implies surviving_ants(s).contains(
        #[trigger] s[j],
    ) by {
        s.lemma_filter_contains(|a: Ant| a.energy > 0, j);
    }
}

/// A food list with no depleted pellet passes cleanup unchanged: useful
/// for reasoning about worlds in which nothing is eating.
pub proof fn lemma_surviving_food_all_left(s: Seq<FoodPellet>)
    requires
        forall|k: int| 0 <= k < s.len() ==> (#[trigger] s[k]).nutrition > 0,
    ensures
        surviving_food(s) == s,
    decreases s.len(),
{
    reveal(Seq::filter);
    if s.len() > 0 {
        lemma_surviving_food_all_left(s.drop_last());
        assert(surviving_food(s) =~= s);
    }
}

/// Drop the dead ants, keeping the survivors in order.
fn retain_alive_ants(v: &mut Vec<Ant>)
    ensures
        final(v)@ == surviving_ants(old(v)@),
        forall|m: int|
            0 <= m < final(v)@.len() ==> old(v)@.contains(#[trigger] final(v)@[m]),
        (forall|j1: int, j2: int|
            0 <= j1 < j2 < old(v)@.len() ==> #[trigger] old(v)@[j1].id
                != #[trigger] old(v)@[j2].id) ==> (forall|m1: int, m2: int|
            0 <= m1 < m2 < final(v)@.len() ==> #[trigger] final(v)@[m1].id
                != #[trigger] final(v)@[m2].id),
{
    let mut kept: Vec<Ant> = Vec::new();
    let ghost mut picked: Seq<int> = Seq::empty();
    let n = v.len();
    for k in 0..n
        invariant
            n == v@.len(),
            v@ == old(v)@,
            kept@ == v@.subrange(0, k as int).filter(|a: Ant| a.energy > 0),
            picked.len() == kept@.len(),
            forall|m: int|
                0 <= m < picked.len() ==> 0 <= #[trigger] picked[m] < k && kept@[m]
                    == v@[picked[m]],
            forall|m1: int, m2: int|
                0 <= m1 < m2 < picked.len() ==> #[trigger] picked[m1]
                    < #[trigger] picked[m2],
    {
        proof {
            reveal(Seq::filter);
            assert(v@.subrange(0, k + 1).drop_last() =~= v@.subrange(0, k as int));
            assert(v@.subrange(0, k + 1).last() == v@[k as int]);
        }
        let a = v[k];
        if a.energy > 0 {
            kept.push(a);
            proof {
                picked = picked.push(k as int);
            }
        }
    }
    proof {
        assert(v@.subrange(0, n as int) =~= v@);
        assert forall|m: int| 0 <= m < kept@.len() implies v@.contains(
            #[trigger] kept@[m],
        ) by {
            assert(v@[picked[m]] == kept@[m]);
        }
        if forall|j1: int, j2: int|
            0 <= j1 < j2 < v@.len() ==> #[trigger] v@[j1].id != #[trigger] v@[j2].id {
            assert forall|m1: int, m2: int|
                0 <= m1 < m2 < kept@.len() implies #[trigger] kept@[m1].id
                != #[trigger] kept@[m2].id by {
                assert(kept@[m1] == v@[picked[m1]]);
                assert(kept@[m2] == v@[picked[m2]]);
                assert(picked[m1] < picked[m2]);
                assert(v@[picked[m1]].id != v@[picked[m2]].id);
            }
        }
    }
    *v = kept;
}

/// Drop the depleted pellets, keeping the rest in order.
fn retain_food_left(v: &mut Vec<FoodPellet>)
    ensures
        final(v)@ == surviving_food(old(v)@),
        forall|m: int|
            0 <= m < final(v)@.len() ==> old(v)@.contains(#[trigger] final(v)@[m]),
        (forall|j1: int, j2: int|
            0 <= j1 < j2 < old(v)@.len() ==> #[trigger] old(v)@[j1].id
                != #[trigger] old(v)@[j2].id) ==> (forall|m1: int, m2: int|
            0 <= m1 < m2 < final(v)@.len() ==> #[trigger] final(v)@[m1].id
                != #[trigger] final(v)@[m2].id),
{
    let mut kept: Vec<FoodPellet> = Vec::new();
    let ghost mut picked: Seq<int> = Seq::empty();
    let n = v.len();
    for k in 0..n
        invariant
            n == v@.len(),
            v@ == old(v)@,
            kept@ == v@.subrange(0, k as int).filter(|f: FoodPellet| f.nutrition > 0),
            picked.len() == kept@.len(),
            forall|m: int|
                0 <= m < picked.len() ==> 0 <= #[trigger] picked[m] < k && kept@[m]
                    == v@[picked[m]],
            forall|m1: int, m2: int|
                0 <= m1 < m2 < picked.len() ==> #[trigger] picked[m1]
                    < #[trigger] picked[m2],
    {
        proof {
            reveal(Seq::filter);
            assert(v@.subrange(0, k + 1).drop_last() =~= v@.subrange(0, k as int));
            assert(v@.subrange(0, k + 1).last() == v@[k as int]);
        }
        let f = v[k];
        if f.nutrition > 0 {
            kept.push(f);
            proof {
                picked = picked.push(k as int);
            }
        }
    }
    proof {
        assert(v@.subrange(0, n as int) =~= v@);
        assert forall|m: int| 0 <= m < kept@.len() implies v@.contains(
            #[trigger] kept@[m],
        ) by {
            assert(v@[picked[m]] == kept@[m]);
        }
        if forall|j1: int, j2: int|
            0 <= j1 < j2 < v@.len() ==> #[trigger] v@[j1].id != #[trigger] v@[j2].id {
            assert forall|m1: int, m2: int|
                0 <= m1 < m2 < kept@.len() implies #[trigger] kept@[m1].id
                != #[trigger] kept@[m2].id by {
                assert(kept@[m1] == v@[picked[m1]]);
                assert(kept@[m2] == v@[picked[m2]]);
                assert(picked[m1] < picked[m2]);
                assert(v@[picked[m1]].id != v@[picked[m2]].id);
            }
        }
    }
    *v = kept;
}

/// Drop the dead nests, keeping the rest in order.
fn retain_alive_nests(v: &mut Vec<Nest>)
    ensures
        final(v)@ == surviving_nests(old(v)@),
        forall|m: int|
            0 <= m < final(v)@.len() ==> old(v)@.contains(#[trigger] final(v)@[m]),
{
    let mut kept: Vec<Nest> = Vec::new();
    let ghost mut picked: Seq<int> = Seq::empty();
    let n = v.len();
    for k in 0..n
        invariant
            n == v@.len(),
            v@ == old(v)@,
            kept@ == v@.subrange(0, k as int).filter(|nn: Nest| nn.energy > 0),
            picked.len() == kept@.len(),
            forall|m: int|
                0 <= m < picked.len() ==> 0 <= #[trigger] picked[m] < k && kept@[m]
                    == v@[picked[m]],
    {
        proof {
            reveal(Seq::filter);
            assert(v@.subrange(0, k + 1).drop_last() =~= v@.subrange(0, k as int));
            assert(v@.subrange(0, k + 1).last() == v@[k as int]);
        }
        let nn = v[k];
        if nn.energy > 0 {
            kept.push(nn);
            proof {
                picked = picked.push(k as int);
            }
        }
    }
    proof {
        assert(v@.subrange(0, n as int) =~= v@);
        assert forall|m: int| 0 <= m < kept@.len() implies v@.contains(
            #[trigger] kept@[m],
        ) by {
            assert(v@[picked[m]] == kept@[m]);
        }
    }
    *v = kept;
}

impl Ground {
    /// The cleanup phase: remove dead ants, depleted food and dead nests,
    /// by filtering each collection in place.
    fn cleanup_ground(&mut self)
        requires
            old(self).wf(),
        ensures
            final(self).wf(),
            *final(self) == (Ground {
                ants: final(self).ants,
                food: final(self).food,
                nests: final(self).nests,
                ..*old(self)
            }),
            final(self).ants@ == surviving_ants(old(self).ants@),
            final(self).food@ == surviving_food(old(self).food@),
            final(self).nests@ == surviving_nests(old(self).nests@),
    {
        retain_alive_ants(&mut self.ants);
        retain_food_left(&mut self.food);
        retain_alive_nests(&mut self.nests);
    }

    /// The food-spawn phase: run the countdown; when it fires, reset it
    /// from the config and scatter exactly one fresh pellet.
    fn spawn_new_food(&mut self)
        requires
            old(self).wf(),
        ensures
            final(self).wf(),
            *final(self) == (Ground {
                food: final(self).food,
                food_timer: final(self).food_timer,
                next_food_id: final(self).next_food_id,
                ..*old(self)
            }),
            old(self).food@.len() <= final(self).food@.len() <= old(self).food@.len()
                + 1,
            forall|k: int|
                0 <= k < old(self).food@.len() ==> #[trigger] final(self).food@[k] == old(
                    self,
                ).food@[k],
            final(self).food@.len() > old(self).food@.len() ==> {
                &&& final(self).food@.last().nutrition == old(self).config.food.nutrition
                &&& final(self).food@.last().bite_size == old(
                    self,
                ).config.food.eaten_value
                &&& final(self).food@.last().id == old(self).next_food_id
                &&& pos_in_world(old(self).size, final(self).food@.last().position)
            },
            final(self).next_food_id == old(self).next_food_id + (
            final(self).food@.len() - old(self).food@.len()),
            old(self).food_timer > 1 ==> final(self).food_timer == old(self).food_timer
                - 1 && final(self).food@ == old(self).food@,
            old(self).food_timer == 1 ==> {
                &&& final(self).food_timer == old(self).config.food.spawn_time
                &&& (old(self).next_food_id < usize::MAX) ==> final(self).food@.len()
                    == old(self).food@.len() + 1
            },
    {
        if self.food_timer == 1 {
            self.food_timer = self.config.food.spawn_time;
            self.generate_random_food(1);
        } else {
            self.food_timer = self.food_timer - 1;
        }
    }

    /// One tick: the nest phase, the ant phase, cleanup, then the food
    /// spawn. The elapsed-time argument is accepted for the embedding
    /// frame loop's convenience but deliberately scales nothing — every
    /// advancement is tick-quantized.
    pub fn update<F: AntLogic, G: NestLogic>(
        &mut self,
        _dt_ms: u64,
        ant_func: &mut F,
        nest_func: &mut G,
    )
        requires
            old(self).wf(),
        ensures
            final(self).wf(),
            final(self).size == old(self).size,
            final(self).config == old(self).config,
            forall|k: int|
                0 <= k < final(self).ants@.len() ==> #[trigger] final(self).ants@[k].energy
                    > 0,
            forall|k: int|
                0 <= k < final(self).nests@.len()
                    ==> #[trigger] final(self).nests@[k].energy > 0,
            forall|k: int|
                0 <= k < final(self).food@.len()
                    ==> #[trigger] final(self).food@[k].nutrition > 0
                    || final(self).food@[k].nutrition == old(self).config.food.nutrition,
            final(self).food_timer == (if old(self).food_timer == 1 {
                old(self).config.food.spawn_time as int
            } else {
                old(self).food_timer - 1
            }),
            final(self).next_food_id == (if old(self).food_timer == 1 && old(
                self,
            ).next_food_id < usize::MAX {
                old(self).next_food_id + 1
            } else {
                old(self).next_food_id as int
            }),
            old(self).food_timer != 1 ==> final(self).food@.len() <= old(
                self,
            ).food@.len(),
            old(self).food_timer == 1 && old(self).next_food_id < usize::MAX ==> {
                &&& 1 <= final(self).food@.len() <= old(self).food@.len() + 1
                &&& final(self).food@.last().id == old(self).next_food_id
                &&& final(self).food@.last().nutrition == old(self).config.food.nutrition
                &&& final(self).food@.last().bite_size == old(
                    self,
                ).config.food.eaten_value
            },
            exists|after_actions: Seq<Ant>|
                {
                    &&& after_actions.len() >= old(self).ants@.len()
                    &&& (forall|k: int|
                        0 <= k < old(self).ants@.len() ==> (#[trigger] after_actions[k]).id
                            == old(self).ants@[k].id)
                    &&& final(self).ants@ == #[trigger] surviving_ants(after_actions)
                },
            old(self).ants@.len() == 0 && old(self).nests@.len() == 0 ==> {
                &&& final(self).ants@.len() == 0
                &&& (old(self).food_timer != 1 ==> final(self).food@ == surviving_food(
                    old(self).food@,
                ))
                &&& (old(self).food_timer == 1 && old(self).next_food_id < usize::MAX
                    ==> final(self).food@.len() == surviving_food(old(self).food@).len()
                    + 1 && (forall|k: int|
                    0 <= k < final(self).food@.len() - 1
                        ==> #[trigger] final(self).food@[k] == surviving_food(
                        old(self).food@,
                    )[k]))
            },
    {
        self.update_nests(nest_func);
        self.update_ants(ant_func);

        let ghost pre_clean = *self;
        self.cleanup_ground();

        let ghost n_clean_food = self.food@.len();
        self.spawn_new_food();
        proof {
            assert(final(self).ants@ == surviving_ants(pre_clean.ants@));
            assert forall|k: int|
                0 <= k < self.food@.len() implies #[trigger] self.food@[k].nutrition > 0
                || self.food@[k].nutrition == old(self).config.food.nutrition by {
                if k < n_clean_food {
                    pre_clean.food@.lemma_filter_pred(|f: FoodPellet| f.nutrition > 0, k);
                }
            }
            assert forall|k: int|
                0 <= k < self.ants@.len() implies #[trigger] self.ants@[k].energy
                > 0 by {
                pre_clean.ants@.lemma_filter_pred(|a: Ant| a.energy > 0, k);
            }
            assert forall|k: int|
                0 <= k < self.nests@.len() implies #[trigger] self.nests@[k].energy
                > 0 by {
                pre_clean.nests@.lemma_filter_pred(|n: Nest| n.energy > 0, k);
            }
        }
    }
}

} // verus!
