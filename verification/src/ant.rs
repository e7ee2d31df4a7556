//! Ants: pose, energy and per-tick capabilities of a single agent, with
//! the small pure mutators the world applies on its behalf — moving,
//! turning, eating, carrying and unloading food.

use vstd::prelude::*;

use crate::config::{AntConfig, SCALAR_LIMIT};
use crate::food::{bite_amount_spec, eaten_step_spec, FoodPellet};
use crate::num::{clamp_spec, mul_milli, mul_milli_spec, sat_sub_spec, sat_sub_u32};
use crate::rotation::Rotation;
use crate::trig::{cos_mrad, cos_spec, sin_mrad, sin_spec, wrap_spec};
use crate::vector2d::{in_range, Vector2D, COORD_LIMIT};

verus! {

/// What an ant decides to do in one tick. The food-directed actions carry
/// a sensed copy of a pellet; the world resolves the copy back to the
/// authoritative pellet by id before mutating anything.
pub enum AntAction {
    Nothing,
    RotateLeft(i64),
    RotateRight(i64),
    GoForward(i64),
    EatFood(FoodPellet),
    CarryFood(FoodPellet),
    UnloadFood,
}

#[derive(Clone, Copy, Debug)]
pub struct Ant {
    pub position: Vector2D,
    pub energy: u32,
    pub id: usize,
    pub rotation: Rotation,
    pub speed: i64,
    pub angular_speed: i64,
    pub max_energy: u32,
    pub mouth_reach: i64,
    pub rounds_to_energy_loss: u32,
    pub carrying: u32,
}

/// The unit vector an ant is facing along, in fixed point. The vertical
/// component is negated: the plane uses screen-space coordinates, where
/// the y axis points down.
pub open spec fn heading_spec(r: Rotation) -> Vector2D {
    Vector2D { x: cos_spec(r.mrad as int) as i64, y: (-sin_spec(r.mrad as int)) as i64 }
}

/// How far an ant actually moves when asked to go `length`: the request,
/// clamped to its per-tick speed in either direction.
pub open spec fn movement_amount_spec(speed: int, length: int) -> int {
    clamp_spec(length, -speed, speed)
}

/// An ant's energy after eating a bite of `t`, clamped to its maximum.
pub open spec fn eat_energy_spec(energy: int, max_energy: int, t: int) -> int {
    if energy + t >= max_energy {
        max_energy
    } else {
        energy + t
    }
}

/// The whole ant after a forward move: its position advanced along its
/// heading by the clamped amount, everything else untouched.
pub open spec fn go_forward_spec(a: Ant, length: int) -> Ant {
    let amount = movement_amount_spec(a.speed as int, length);
    let h = heading_spec(a.rotation);
    Ant {
        position: Vector2D {
            x: (a.position.x + mul_milli_spec(h.x as int, amount)) as i64,
            y: (a.position.y + mul_milli_spec(h.y as int, amount)) as i64,
        },
        ..a
    }
}

/// The whole ant after a capped left turn.
pub open spec fn rotate_left_spec(a: Ant, angle: int) -> Ant {
    Ant {
        rotation: Rotation {
            mrad: wrap_spec(
                a.rotation.mrad - vstd::math::min(a.angular_speed as int, angle),
            ) as i64,
        },
        ..a
    }
}

/// The whole ant after a capped right turn.
pub open spec fn rotate_right_spec(a: Ant, angle: int) -> Ant {
    Ant {
        rotation: Rotation {
            mrad: wrap_spec(
                a.rotation.mrad + vstd::math::min(a.angular_speed as int, angle),
            ) as i64,
        },
        ..a
    }
}

/// Ant and pellet together after one eat action.
pub open spec fn eat_pair_spec(a: Ant, f: FoodPellet) -> (Ant, FoodPellet) {
    (
        Ant {
            energy: eat_energy_spec(
                a.energy as int,
                a.max_energy as int,
                bite_amount_spec(f),
            ) as u32,
            ..a
        },
        eaten_step_spec(f),
    )
}

/// Ant and pellet together after one carry action.
pub open spec fn carry_pair_spec(a: Ant, f: FoodPellet, cfg: AntConfig) -> (Ant, FoodPellet) {
    let space = sat_sub_spec(cfg.carry_capacity as int, a.carrying as int);
    let moved = vstd::math::min(space, f.nutrition as int);
    (
        Ant { carrying: (a.carrying + moved) as u32, ..a },
        FoodPellet { nutrition: (f.nutrition - moved) as u32, ..f },
    )
}

/// The whole ant after unloading what it carried.
pub open spec fn unload_spec(a: Ant) -> Ant {
    Ant { carrying: 0, ..a }
}

/// A freshly spawned ant, field by field: at `pos`, full energy, facing
/// along the positive x axis, empty carry buffer, capabilities and
/// upkeep countdown taken from the config.
pub open spec fn fresh_ant_spec(id: usize, config: AntConfig, pos: Vector2D) -> Ant {
    Ant {
        position: pos,
        energy: config.max_energy,
        id,
        rotation: Rotation { mrad: 0 },
        speed: config.speed,
        angular_speed: config.angular_speed,
        max_energy: config.max_energy,
        mouth_reach: config.mouth_reach,
        rounds_to_energy_loss: config.energy_loss_rounds,
        carrying: 0,
    }
}

impl Ant {
    /// The ant's own scalar parameters are non-negative, within machine
    /// bounds, its energy is within its maximum and its heading is a
    /// canonical angle.
    pub open spec fn wf(self) -> bool {
        &&& self.energy <= self.max_energy
        &&& 0 <= self.speed <= SCALAR_LIMIT
        &&& 0 <= self.angular_speed <= SCALAR_LIMIT
        &&& 0 <= self.mouth_reach <= SCALAR_LIMIT
        &&& self.rotation.canonical()
    }

    /// A freshly spawned ant at `pos`: full energy, facing along the
    /// positive x axis, with its capabilities taken from the config.
    pub fn new_at(id: usize, config: &AntConfig, pos: Vector2D) -> (r: Ant)
        requires
            config.wf(),
        ensures
            r == fresh_ant_spec(id, *config, pos),
            r.wf(),
    {
        Ant {
            position: pos,
            energy: config.max_energy,
            id,
            rotation: Rotation { mrad: 0 },
            speed: config.speed,
            angular_speed: config.angular_speed,
            max_energy: config.max_energy,
            mouth_reach: config.mouth_reach,
            rounds_to_energy_loss: config.energy_loss_rounds,
            carrying: 0,
        }
    }

    pub fn is_alive(&self) -> (r: bool)
        ensures
            r == (self.energy != 0),
    {
        self.energy != 0
    }

    /// Take one bite from `food` and add it to this ant's energy, clamped
    /// so the energy never exceeds the ant's maximum.
    pub fn eat_food(&mut self, food: &mut FoodPellet)
        ensures
            *final(food) == eaten_step_spec(*old(food)),
            final(self).energy == eat_energy_spec(
                old(self).energy as int,
                old(self).max_energy as int,
                bite_amount_spec(*old(food)),
            ),
            final(self).energy <= old(self).max_energy,
            *final(self) == (Ant { energy: final(self).energy, ..*old(self) }),
            (*final(self), *final(food)) == eat_pair_spec(*old(self), *old(food)),
    {
        let bite: u32 = food.get_eaten();
        let sum: u64 = (self.energy as u64) + (bite as u64);
        if sum >= self.max_energy as u64 {
            self.energy = self.max_energy;
        } else {
            self.energy = sum as u32;
        }
    }

    /// Move up to `carry_capacity - carrying` units of nutrition from
    /// `food` into the ant's carry buffer (all of the pellet if it holds
    /// less; nothing if the buffer is already at or over capacity).
    pub fn carry_food(&mut self, food: &mut FoodPellet, config: &AntConfig)
        ensures
            ({
                let space = sat_sub_spec(
                    config.carry_capacity as int,
                    old(self).carrying as int,
                );
                let moved = if space <= old(food).nutrition as int {
                    space
                } else {
                    old(food).nutrition as int
                };
                &&& final(self).carrying == old(self).carrying + moved
                &&& final(food).nutrition == old(food).nutrition - moved
            }),
            *final(self) == (Ant { carrying: final(self).carrying, ..*old(self) }),
            *final(food) == (FoodPellet { nutrition: final(food).nutrition, ..*old(food) }),
            (*final(self), *final(food)) == carry_pair_spec(*old(self), *old(food), *config),
    {
        let space: u32 = sat_sub_u32(config.carry_capacity, self.carrying);
        let moved: u32 = if space <= food.nutrition {
            space
        } else {
            food.nutrition
        };
        food.nutrition = food.nutrition - moved;
        self.carrying = self.carrying + moved;
    }

    /// Empty the carry buffer and return what was in it.
    pub fn unload_food(&mut self, _config: &AntConfig) -> (r: u32)
        ensures
            r == old(self).carrying,
            *final(self) == unload_spec(*old(self)),
    {
        let carrying = self.carrying;
        self.carrying = 0;
        carrying
    }

    /// Walk along the current heading by `length`, clamped to the ant's
    /// per-tick speed in either direction.
    pub fn go_forward(&mut self, length: i64)
        requires
            old(self).wf(),
            in_range(old(self).position, 2 * COORD_LIMIT),
        ensures
            ({
                let amount = movement_amount_spec(old(self).speed as int, length as int);
                let h = heading_spec(old(self).rotation);
                &&& final(self).position.x == old(self).position.x + mul_milli_spec(
                    h.x as int,
                    amount,
                )
                &&& final(self).position.y == old(self).position.y + mul_milli_spec(
                    h.y as int,
                    amount,
                )
            }),
            *final(self) == (Ant { position: final(self).position, ..*old(self) }),
            *final(self) == go_forward_spec(*old(self), length as int),
            in_range(final(self).position, 2 * COORD_LIMIT + 1_000_000_000),
    {
        let amount: i64 = if length < -self.speed {
            -self.speed
        } else if length > self.speed {
            self.speed
        } else {
            length
        };
        let hx: i64 = cos_mrad(self.rotation.get_mrad());
        let hy: i64 = -sin_mrad(self.rotation.get_mrad());
        let dx: i64 = mul_milli(hx, amount);
        let dy: i64 = mul_milli(hy, amount);
        proof {
            crate::num::lemma_mul_milli_bounded(hx as int, amount as int, 1_000_000_000);
            crate::num::lemma_mul_milli_bounded(hy as int, amount as int, 1_000_000_000);
        }
        self.position = Vector2D { x: self.position.x + dx, y: self.position.y + dy };
    }

    /// Turn left (decreasing angle) by `angle`, capped at the ant's
    /// angular speed.
    pub fn rotate_left(&mut self, angle: i64)
        requires
            old(self).wf(),
        ensures
            final(self).rotation.mrad == wrap_spec(
                old(self).rotation.mrad - vstd::math::min(
                    old(self).angular_speed as int,
                    angle as int,
                ),
            ),
            final(self).rotation.canonical(),
            *final(self) == (Ant { rotation: final(self).rotation, ..*old(self) }),
            *final(self) == rotate_left_spec(*old(self), angle as int),
    {
        let delta: i64 = if angle < self.angular_speed {
            angle
        } else {
            self.angular_speed
        };
        self.rotation = self.rotation.sub_mrad(delta);
    }

    /// Turn right (increasing angle) by `angle`, capped at the ant's
    /// angular speed.
    pub fn rotate_right(&mut self, angle: i64)
        requires
            old(self).wf(),
        ensures
            final(self).rotation.mrad == wrap_spec(
                old(self).rotation.mrad + vstd::math::min(
                    old(self).angular_speed as int,
                    angle as int,
                ),
            ),
            final(self).rotation.canonical(),
            *final(self) == (Ant { rotation: final(self).rotation, ..*old(self) }),
            *final(self) == rotate_right_spec(*old(self), angle as int),
    {
        let delta: i64 = if angle < self.angular_speed {
            angle
        } else {
            self.angular_speed
        };
        self.rotation = self.rotation.add_mrad(delta);
    }
}

/// The energy-clamp law: whatever bite arrives and whatever state the
/// ant was in, the energy after an eat action lies in `[0, max_energy]`.
pub proof fn lemma_energy_clamp(energy: int, max_energy: int, t: int)
    requires
        0 <= energy,
        0 <= max_energy,
        0 <= t,
    ensures
        0 <= eat_energy_spec(energy, max_energy, t) <= max_energy,
{
}

/// The movement-cap law: a request longer than the ant's speed moves it
/// by exactly the speed, in the requested direction.
pub proof fn lemma_movement_cap(speed: int, length: int)
    requires
        0 <= speed,
    ensures
        length > speed ==> movement_amount_spec(speed, length) == speed,
        length < -speed ==> movement_amount_spec(speed, length) == -speed,
        -speed <= length <= speed ==> movement_amount_spec(speed, length) == length,
{
}

/// The movement-cap law on the resulting displacement, for an ant facing
/// straight along the x axis (where the fixed-point heading is exactly a
/// unit vector): an over-long request moves the ant by exactly its
/// speed. For other headings the heading components are rational
/// approximations, so the cap law is stated on the applied scalar
/// instead (see `lemma_movement_cap`).
pub proof fn lemma_forward_displacement_exact(a: Ant, length: int)
    requires
        a.wf(),
        in_range(a.position, 2 * COORD_LIMIT),
        a.rotation.mrad == 0,
        length > a.speed,
    ensures
        ({
            let moved = go_forward_spec(a, length);
            let dx = moved.position.x - a.position.x;
            let dy = moved.position.y - a.position.y;
            crate::num::sqrt_floor((dx * dx + dy * dy) as nat) == a.speed
        }),
{
    let s = a.speed as int;
    vstd::arithmetic::div_mod::lemma_small_mod(1571 as nat, 6283 as nat);
    assert(wrap_spec(0 + 1571int) == 1571);
    assert(1571int * (3142 - 1571) == 2468041) by (nonlinear_arith);
    assert(16 * 2468041 * 1000 == 39488656000int) by (nonlinear_arith);
    assert(5 * 3142 * 3142 - 4 * 2468041int == 39488656) by (nonlinear_arith);
    assert(39488656int * 1000 == 39488656000int) by (nonlinear_arith);
    vstd::arithmetic::div_mod::lemma_div_multiples_vanish(1000, 39488656);
    assert(crate::trig::half_wave_spec(1571) == 1000);
    assert(cos_spec(0) == 1000);
    assert(crate::trig::half_wave_spec(0) == 0);
    assert(sin_spec(0) == 0);
    assert(1000 * s == s * 1000) by (nonlinear_arith);
    vstd::arithmetic::div_mod::lemma_div_multiples_vanish(s, 1000);
    vstd::arithmetic::div_mod::lemma_div_of0(1000);
    assert(mul_milli_spec(1000, s) == s);
    assert(mul_milli_spec(0, s) == 0);
    let moved = go_forward_spec(a, length);
    let dx = moved.position.x - a.position.x;
    let dy = moved.position.y - a.position.y;
    assert(dx == s && dy == 0);
    crate::num::lemma_sqrt_floor((s * s) as nat);
    let r = crate::num::sqrt_floor((s * s) as nat) as int;
    assert(r == s) by (nonlinear_arith)
        requires
            0 <= s,
            0 <= r,
            r * r <= s * s,
            s * s < (r + 1) * (r + 1),
    ;
    assert((dx * dx + dy * dy) as nat == (s * s) as nat) by (nonlinear_arith)
        requires
            dx == s,
            dy == 0,
            s >= 0,
    ;
}

/// The movement-cap law on the displacement componentwise, for every
/// heading: however the ant is facing, one forward move shifts each
/// coordinate by at most the ant's speed.
pub proof fn lemma_displacement_bounded(a: Ant, length: int)
    requires
        a.wf(),
        in_range(a.position, 2 * COORD_LIMIT),
    ensures
        ({
            let moved = go_forward_spec(a, length);
            &&& -a.speed <= moved.position.x - a.position.x <= a.speed
            &&& -a.speed <= moved.position.y - a.position.y <= a.speed
        }),
{
    let amount = movement_amount_spec(a.speed as int, length);
    let h = heading_spec(a.rotation);
    crate::num::lemma_mul_milli_bounded(h.x as int, amount, a.speed as int);
    crate::num::lemma_mul_milli_bounded(h.y as int, amount, a.speed as int);
}

/// The rotation-cap law on the stored angle, away from the wrap point:
/// as long as the capped turn does not cross a full-turn boundary, the
/// stored angle changes by exactly the capped delta.
pub proof fn lemma_rotation_cap_exact(a: Ant, angle: int)
    requires
        a.wf(),
    ensures
        ({
            let delta = vstd::math::min(a.angular_speed as int, angle);
            &&& 0 <= a.rotation.mrad + delta < crate::trig::TURN ==> rotate_right_spec(
                a,
                angle,
            ).rotation.mrad == a.rotation.mrad + delta
            &&& 0 <= a.rotation.mrad - delta < crate::trig::TURN ==> rotate_left_spec(
                a,
                angle,
            ).rotation.mrad == a.rotation.mrad - delta
        }),
{
    let delta = vstd::math::min(a.angular_speed as int, angle);
    if 0 <= a.rotation.mrad + delta < crate::trig::TURN {
        vstd::arithmetic::div_mod::lemma_small_mod(
            (a.rotation.mrad + delta) as nat,
            crate::trig::TURN as nat,
        );
    }
    if 0 <= a.rotation.mrad - delta < crate::trig::TURN {
        vstd::arithmetic::div_mod::lemma_small_mod(
            (a.rotation.mrad - delta) as nat,
            crate::trig::TURN as nat,
        );
    }
}

/// The rotation-cap law: a turn request larger than the angular speed is
/// applied as exactly the angular speed.
pub proof fn lemma_rotation_cap(angular_speed: int, angle: int)
    requires
        0 <= angular_speed,
    ensures
        angle > angular_speed ==> vstd::math::min(angular_speed, angle) == angular_speed,
        angle <= angular_speed ==> vstd::math::min(angular_speed, angle) == angle,
{
}

} // verus!
