//! The reference foraging policy: a per-ant objective state machine
//! (searching, walking to food, eating, bringing food home) with an
//! id-keyed memory of each ant's nest position, and the nest policy that
//! periodically funds a new ant. Both keep their state in the policy
//! value itself, so independent simulations stay independent.

use vstd::prelude::*;

use std::collections::HashMap;

use crate::ant::{heading_spec, Ant, AntAction};
use crate::food::FoodPellet;
use crate::nest::{Nest, NestAction};
use crate::num::{clamp_spec, sqrt_floor};
use crate::sample::rand_below;
use crate::trig::{atan2_mrad, atan2_spec, cos_mrad, sin_mrad, QUARTER_TURN};
use crate::vector2d::{in_range, normalize_spec, Vector2D};
use crate::vision::{SeenObject, Vision};
use crate::{AntLogic, NestLogic};

verus! {

broadcast use vstd::std_specs::hash::group_hash_axioms;

/// What an ant is currently trying to do.
#[derive(Clone, Copy, PartialEq, Eq, Structural, Debug)]
pub enum AntObjective {
    Searching,
    Eating,
    GoToFood,
    BringingFoodHome,
}

/// What the policy remembers about one ant: its current objective and
/// where it believes its nest stands.
#[derive(Clone, Copy, Debug)]
pub struct AntMemory {
    pub objective: AntObjective,
    pub nest_pos: Option<Vector2D>,
}

impl AntMemory {
    pub fn new() -> (r: AntMemory)
        ensures
            r.objective == AntObjective::Searching,
            r.nest_pos is None,
    {
        AntMemory { objective: AntObjective::Searching, nest_pos: Option::None }
    }
}

/// The nearest food sighting among the first `k` vision entries: ties go
/// to the earlier entry, since only a strictly smaller distance replaces
/// the candidate.
pub open spec fn nearest_food_upto(vision: Seq<Vision>, k: int) -> Option<(FoodPellet, i64)>
    decreases k,
{
    if k <= 0 {
        Option::None
    } else {
        let prev = nearest_food_upto(vision, k - 1);
        match vision[k - 1].object {
            SeenObject::Food(f) => match prev {
                Option::None => Option::Some((f, vision[k - 1].distance)),
                Option::Some((pf, pd)) => if vision[k - 1].distance < pd {
                    Option::Some((f, vision[k - 1].distance))
                } else {
                    prev
                },
            },
            SeenObject::Ant(_) => prev,
        }
    }
}

/// The nearest food sighting of the whole vision set.
pub open spec fn nearest_food_spec(vision: Seq<Vision>) -> Option<(FoodPellet, i64)> {
    nearest_food_upto(vision, vision.len() as int)
}

/// Find the nearest food sighting, scanning the vision set in order.
pub fn nearest_food(vision: &Vec<Vision>) -> (r: Option<(FoodPellet, i64)>)
    ensures
        r == nearest_food_spec(vision@),
{
    let mut closest: Option<(FoodPellet, i64)> = Option::None;
    let n = vision.len();
    for k in 0..n
        invariant
            n == vision@.len(),
            closest == nearest_food_upto(vision@, k as int),
    {
        match vision[k].object {
            SeenObject::Food(f) => {
                match closest {
                    Option::None => {
                        closest = Option::Some((f, vision[k].distance));
                    },
                    Option::Some((pf, pd)) => {
                        if vision[k].distance < pd {
                            closest = Option::Some((f, vision[k].distance));
                        }
                    },
                }
            },
            SeenObject::Ant(_) => {},
        }
    }
    closest
}

/// The exploration move when nothing is visible: a seven-way uniform
/// draw, five of whose outcomes walk forward — a quarter turn left, a
/// quarter turn right, or (five times as likely) a hundred-unit stride.
pub open spec fn searching_action_spec(draw: int) -> AntAction {
    if draw == 0 {
        AntAction::RotateLeft(QUARTER_TURN as i64)
    } else if draw == 1 {
        AntAction::RotateRight(QUARTER_TURN as i64)
    } else {
        AntAction::GoForward(100_000)
    }
}

fn searching_action(draw: u64) -> (r: AntAction)
    ensures
        r == searching_action_spec(draw as int),
{
    if draw == 0 {
        AntAction::RotateLeft(QUARTER_TURN)
    } else if draw == 1 {
        AntAction::RotateRight(QUARTER_TURN)
    } else {
        AntAction::GoForward(100_000)
    }
}

/// The displacement from `from` to `to`, with each component clipped
/// into the window the fixed-point kernels accept — far wider than any
/// world, so in-world values pass through unchanged.
pub open spec fn offset_to_spec(from: Vector2D, to: Vector2D) -> Vector2D {
    Vector2D {
        x: clamp_spec(to.x - from.x, -2_000_000_000, 2_000_000_000) as i64,
        y: clamp_spec(to.y - from.y, -2_000_000_000, 2_000_000_000) as i64,
    }
}

/// The length of a displacement, rounded down.
pub open spec fn vec_len_spec(v: Vector2D) -> int {
    sqrt_floor((v.x * v.x + v.y * v.y) as nat) as int
}

fn offset_to(from: Vector2D, to: Vector2D) -> (r: Vector2D)
    ensures
        r == offset_to_spec(from, to),
        in_range(r, 2_000_000_000),
{
    let dxw: i128 = (to.x as i128) - (from.x as i128);
    let dyw: i128 = (to.y as i128) - (from.y as i128);
    let dx: i64 = if dxw < -2_000_000_000 {
        -2_000_000_000
    } else if dxw > 2_000_000_000 {
        2_000_000_000
    } else {
        dxw as i64
    };
    let dy: i64 = if dyw < -2_000_000_000 {
        -2_000_000_000
    } else if dyw > 2_000_000_000 {
        2_000_000_000
    } else {
        dyw as i64
    };
    Vector2D { x: dx, y: dy }
}

/// How an ant walks toward a target it can see: compare the bearing of
/// the target against the ant's own heading; turn toward it when the
/// signed difference exceeds half the ant's angular speed, else stride
/// forward.
pub open spec fn steer_spec(ant: Ant, target: Vector2D) -> AntAction {
    let own_dir = heading_spec(ant.rotation);
    let to_target = normalize_spec(offset_to_spec(ant.position, target));
    let angle = atan2_spec(to_target.y as int, to_target.x as int) - atan2_spec(
        own_dir.y as int,
        own_dir.x as int,
    );
    let half = (ant.angular_speed as int) / 2;
    if angle > half {
        AntAction::RotateLeft((if angle >= 0 { angle } else { -angle }) as i64)
    } else if angle < -half {
        AntAction::RotateRight((if angle >= 0 { angle } else { -angle }) as i64)
    } else {
        AntAction::GoForward(100_000)
    }
}

fn steer(ant: &Ant, target: Vector2D) -> (r: AntAction)
    requires
        ant.wf(),
    ensures
        r == steer_spec(*ant, target),
{
    let own_dir_x = cos_mrad(ant.rotation.get_mrad());
    let own_dir_y = -sin_mrad(ant.rotation.get_mrad());

    let mut to_target = offset_to(ant.position, target);
    to_target.normalize();

    let angle = atan2_mrad(to_target.y, to_target.x) - atan2_mrad(own_dir_y, own_dir_x);
    let half = ((ant.angular_speed as u64) / 2) as i64;
    if angle > half {
        AntAction::RotateLeft(if angle >= 0 { angle } else { -angle })
    } else if angle < -half {
        AntAction::RotateRight(if angle >= 0 { angle } else { -angle })
    } else {
        AntAction::GoForward(100_000)
    }
}

/// One decision while searching: food in sight sends the ant toward it;
/// otherwise it explores at random.
pub open spec fn search_step_spec(
    mem: AntMemory,
    ant: Ant,
    nearest: Option<(FoodPellet, i64)>,
    draw: int,
) -> (AntMemory, AntAction) {
    match nearest {
        Option::None => (
            AntMemory { objective: AntObjective::Searching, ..mem },
            searching_action_spec(draw),
        ),
        Option::Some(_) => goto_step_spec(
            AntMemory { objective: AntObjective::GoToFood, ..mem },
            ant,
            nearest,
            draw,
        ),
    }
}

/// One decision while walking to food: within mouth reach the ant starts
/// eating; food lost from view sends it back to searching; otherwise it
/// steers toward the nearest pellet.
pub open spec fn goto_step_spec(
    mem: AntMemory,
    ant: Ant,
    nearest: Option<(FoodPellet, i64)>,
    draw: int,
) -> (AntMemory, AntAction) {
    match nearest {
        Option::None => (
            AntMemory { objective: AntObjective::Searching, ..mem },
            searching_action_spec(draw),
        ),
        Option::Some((f, d)) => if d < ant.mouth_reach {
            eat_step_spec(AntMemory { objective: AntObjective::Eating, ..mem }, ant, nearest, draw)
        } else {
            (AntMemory { objective: AntObjective::GoToFood, ..mem }, steer_spec(ant, f.position))
        },
    }
}

/// One decision while eating: an ant nearly sated picks the pellet up to
/// carry it home; otherwise it takes another bite; food lost from view
/// sends it back to searching.
pub open spec fn eat_step_spec(
    mem: AntMemory,
    ant: Ant,
    nearest: Option<(FoodPellet, i64)>,
    draw: int,
) -> (AntMemory, AntAction) {
    match nearest {
        Option::None => (
            AntMemory { objective: AntObjective::Searching, ..mem },
            searching_action_spec(draw),
        ),
        Option::Some((f, d)) => if ant.energy + f.bite_size >= ant.max_energy {
            (AntMemory { objective: AntObjective::BringingFoodHome, ..mem }, AntAction::CarryFood(f))
        } else {
            (AntMemory { objective: AntObjective::Eating, ..mem }, AntAction::EatFood(f))
        },
    }
}

/// One decision while bringing food home: a hungry ant stops to unload
/// and eat; at the remembered nest it unloads and resumes searching; on
/// the way it steers toward the nest; an ant with no remembered nest is
/// permanently inert — the documented degenerate dead end.
pub open spec fn bring_step_spec(
    mem: AntMemory,
    ant: Ant,
    nearest: Option<(FoodPellet, i64)>,
    draw: int,
) -> (AntMemory, AntAction) {
    if ant.energy < ant.max_energy / 5 {
        (AntMemory { objective: AntObjective::Eating, ..mem }, AntAction::UnloadFood)
    } else {
        match mem.nest_pos {
            Option::None => (
                AntMemory { objective: AntObjective::BringingFoodHome, ..mem },
                AntAction::Nothing,
            ),
            Option::Some(np) => if vec_len_spec(offset_to_spec(ant.position, np))
                <= ant.mouth_reach {
                (AntMemory { objective: AntObjective::Searching, ..mem }, AntAction::UnloadFood)
            } else {
                (
                    AntMemory { objective: AntObjective::BringingFoodHome, ..mem },
                    steer_spec(ant, np),
                )
            },
        }
    }
}

/// The whole decision: dispatch on the remembered objective, following
/// the transitions until an action is produced.
pub open spec fn decide_spec(
    mem: AntMemory,
    ant: Ant,
    nearest: Option<(FoodPellet, i64)>,
    draw: int,
) -> (AntMemory, AntAction) {
    match mem.objective {
        AntObjective::Searching => search_step_spec(mem, ant, nearest, draw),
        AntObjective::GoToFood => goto_step_spec(mem, ant, nearest, draw),
        AntObjective::Eating => eat_step_spec(mem, ant, nearest, draw),
        AntObjective::BringingFoodHome => bring_step_spec(mem, ant, nearest, draw),
    }
}

/// One deterministic decision, given the random draw as an argument: the
/// new memory to store for the ant, and the action to apply.
pub fn decide(mem: AntMemory, ant: &Ant, nearest: Option<(FoodPellet, i64)>, draw: u64) -> (r: (
    AntMemory,
    AntAction,
))
    requires
        ant.wf(),
    ensures
        r == decide_spec(mem, *ant, nearest, draw as int),
        r.0.nest_pos == mem.nest_pos,
{
    let objective = mem.objective;
    match objective {
        AntObjective::Searching => {
            match nearest {
                Option::None => (
                    AntMemory { objective: AntObjective::Searching, ..mem },
                    searching_action(draw),
                ),
                Option::Some(_) => goto_step(
                    AntMemory { objective: AntObjective::GoToFood, ..mem },
                    ant,
                    nearest,
                    draw,
                ),
            }
        },
        AntObjective::GoToFood => goto_step(mem, ant, nearest, draw),
        AntObjective::Eating => eat_step(mem, ant, nearest, draw),
        AntObjective::BringingFoodHome => {
            if ant.energy < ant.max_energy / 5 {
                (AntMemory { objective: AntObjective::Eating, ..mem }, AntAction::UnloadFood)
            } else {
                match mem.nest_pos {
                    Option::None => (
                        AntMemory { objective: AntObjective::BringingFoodHome, ..mem },
                        AntAction::Nothing,
                    ),
                    Option::Some(np) => {
                        let off = offset_to(ant.position, np);
                        let d = off.length();
                        if d <= ant.mouth_reach {
                            (
                                AntMemory { objective: AntObjective::Searching, ..mem },
                                AntAction::UnloadFood,
                            )
                        } else {
                            (
                                AntMemory {
                                    objective: AntObjective::BringingFoodHome,
                                    ..mem
                                },
                                steer(ant, np),
                            )
                        }
                    },
                }
            }
        },
    }
}

fn goto_step(mem: AntMemory, ant: &Ant, nearest: Option<(FoodPellet, i64)>, draw: u64) -> (r: (
    AntMemory,
    AntAction,
))
    requires
        ant.wf(),
    ensures
        r == goto_step_spec(mem, *ant, nearest, draw as int),
        r.0.nest_pos == mem.nest_pos,
{
    match nearest {
        Option::None => (
            AntMemory { objective: AntObjective::Searching, ..mem },
            searching_action(draw),
        ),
        Option::Some((f, d)) => {
            if d < ant.mouth_reach {
                eat_step(AntMemory { objective: AntObjective::Eating, ..mem }, ant, nearest, draw)
            } else {
                (
                    AntMemory { objective: AntObjective::GoToFood, ..mem },
                    steer(ant, f.position),
                )
            }
        },
    }
}

fn eat_step(mem: AntMemory, ant: &Ant, nearest: Option<(FoodPellet, i64)>, draw: u64) -> (r: (
    AntMemory,
    AntAction,
))
    ensures
        r == eat_step_spec(mem, *ant, nearest, draw as int),
        r.0.nest_pos == mem.nest_pos,
{
    match nearest {
        Option::None => (
            AntMemory { objective: AntObjective::Searching, ..mem },
            searching_action(draw),
        ),
        Option::Some((f, d)) => {
            if (ant.energy as u64) + (f.bite_size as u64) >= ant.max_energy as u64 {
                (
                    AntMemory { objective: AntObjective::BringingFoodHome, ..mem },
                    AntAction::CarryFood(f),
                )
            } else {
                (AntMemory { objective: AntObjective::Eating, ..mem }, AntAction::EatFood(f))
            }
        },
    }
}

/// The memory the policy works from on a call: the stored entry (or a
/// fresh one), with the nest position pinned to the ant's current
/// position on the very first sighting — an ant that has not moved yet
/// stands at its nest.
pub open spec fn init_memory_spec(
    m: Map<usize, AntMemory>,
    id: usize,
    pos: Vector2D,
) -> AntMemory {
    let mem0 = if m.contains_key(id) {
        m[id]
    } else {
        AntMemory { objective: AntObjective::Searching, nest_pos: Option::None }
    };
    if mem0.nest_pos is None {
        AntMemory { nest_pos: Option::Some(pos), ..mem0 }
    } else {
        mem0
    }
}

/// The reference foraging policy: objective state machine plus nest
/// memory, keyed by ant id.
pub struct ForagerPolicy {
    memory: HashMap<usize, AntMemory>,
}

impl ForagerPolicy {
    /// The policy's memory, as a map from ant id to remembered state.
    pub closed spec fn mem_map(&self) -> Map<usize, AntMemory> {
        self.memory@
    }

    pub fn new() -> (r: ForagerPolicy)
        ensures
            r.mem_map() == Map::<usize, AntMemory>::empty(),
    {
        ForagerPolicy { memory: HashMap::new() }
    }

    /// Forget everything, as at the start of a new round.
    pub fn reset(&mut self)
        ensures
            final(self).mem_map() == Map::<usize, AntMemory>::empty(),
    {
        self.memory = HashMap::new();
    }

    /// One policy call for one ant: remember the nest on first sight,
    /// find the nearest food, decide, store the new memory, and hand the
    /// action back. The seven-way draw is sampled fresh on every call,
    /// so the result is pinned only up to which of the seven outcomes
    /// was drawn.
    pub fn ant_update(&mut self, ant: &Ant, vision: &Vec<Vision>) -> (r: AntAction)
        requires
            ant.wf(),
        ensures
            exists|draw: int|
                0 <= draw < 7 && {
                    let (m2, act) = #[trigger] decide_spec(
                        init_memory_spec(old(self).mem_map(), ant.id, ant.position),
                        *ant,
                        nearest_food_spec(vision@),
                        draw,
                    );
                    r == act && final(self).mem_map() == old(self).mem_map().insert(
                        ant.id,
                        m2,
                    )
                },
    {
        let mem0: AntMemory = match self.memory.get(&ant.id) {
            Option::Some(m) => *m,
            Option::None => AntMemory::new(),
        };
        let mem1: AntMemory = match mem0.nest_pos {
            Option::None => AntMemory { nest_pos: Option::Some(ant.position), ..mem0 },
            Option::Some(_) => mem0,
        };
        let nearest = nearest_food(vision);
        let draw = rand_below(7);
        let (m2, act) = decide(mem1, ant, nearest, draw);
        self.memory.insert(ant.id, m2);
        proof {
            let d = draw as int;
            assert(decide_spec(
                init_memory_spec(old(self).mem_map(), ant.id, ant.position),
                *ant,
                nearest_food_spec(vision@),
                d,
            ) == (m2, act));
        }
        act
    }
}

impl AntLogic for ForagerPolicy {
    fn update(&mut self, ant: &Ant, vision: &Vec<Vision>) -> AntAction {
        self.ant_update(ant, vision)
    }
}

/// The default decision rule, with no memory: eat the nearest food when
/// it is within mouth reach, steer toward it when it is merely visible,
/// and explore at random otherwise.
pub open spec fn basic_decide_spec(
    ant: Ant,
    nearest: Option<(FoodPellet, i64)>,
    draw: int,
) -> AntAction {
    match nearest {
        Option::None => searching_action_spec(draw),
        Option::Some((f, d)) => if d < ant.mouth_reach {
            AntAction::EatFood(f)
        } else {
            steer_spec(ant, f.position)
        },
    }
}

/// The memoryless default policy.
pub struct BasicForager {}

impl BasicForager {
    pub fn new() -> BasicForager {
        BasicForager {  }
    }

    /// The deterministic core of the default policy, given the random
    /// draw as an argument.
    pub fn decide_with(ant: &Ant, nearest: Option<(FoodPellet, i64)>, draw: u64) -> (r:
        AntAction)
        requires
            ant.wf(),
        ensures
            r == basic_decide_spec(*ant, nearest, draw as int),
    {
        match nearest {
            Option::None => searching_action(draw),
            Option::Some((f, d)) => {
                if d < ant.mouth_reach {
                    AntAction::EatFood(f)
                } else {
                    steer(ant, f.position)
                }
            },
        }
    }
}

impl AntLogic for BasicForager {
    fn update(&mut self, ant: &Ant, vision: &Vec<Vision>) -> AntAction {
        let nearest = nearest_food(vision);
        let draw = rand_below(7);
        BasicForager::decide_with(ant, nearest, draw)
    }
}

/// The reference nest policy: once enough frames have passed and the
/// nest holds a comfortable energy reserve, fund one new ant.
pub struct NestPolicy {
    pub frames: u64,
}

impl NestPolicy {
    pub fn new() -> (r: NestPolicy)
        ensures
            r.frames == 0,
    {
        NestPolicy { frames: 0 }
    }

    /// Start the frame count over, as at the start of a new round.
    pub fn reset(&mut self)
        ensures
            final(self).frames == 0,
    {
        self.frames = 0;
    }

    /// One policy call for one nest: spawn one ant when the nest holds
    /// more than a thousand energy and at least sixty frames have
    /// passed; otherwise just count the frame (saturating far beyond any
    /// reachable count).
    pub fn nest_update(&mut self, nest: &Nest) -> (r: NestAction)
        ensures
            nest.energy > 1000 && old(self).frames >= 60 ==> r == NestAction::SpawnAnts(1)
                && final(self).frames == 0,
            !(nest.energy > 1000 && old(self).frames >= 60) ==> r == NestAction::Nothing
                && final(self).frames == (if old(self).frames < u64::MAX {
                old(self).frames + 1
            } else {
                old(self).frames as int
            }),
    {
        if nest.energy > 1000 && self.frames >= 60 {
            self.frames = 0;
            NestAction::SpawnAnts(1)
        } else {
            if self.frames < u64::MAX {
                self.frames = self.frames + 1;
            }
            NestAction::Nothing
        }
    }
}

impl NestLogic for NestPolicy {
    fn update(&mut self, nest: &Nest) -> NestAction {
        self.nest_update(nest)
    }
}

} // verus!
