//! Tunable parameters of the simulation, grouped by the kind of entity
//! they concern. A `Ground` reads the current values every tick, so the
//! embedding application may change them between ticks.

use vstd::prelude::*;

verus! {

/// The largest magnitude accepted for the fixed-point scalar parameters,
/// far above any sensible setting; it keeps every per-tick computation
/// within machine bounds.
pub const SCALAR_LIMIT: i64 = 1_000_000_000;

pub struct GeneralConfig {}

impl GeneralConfig {
    pub fn new() -> GeneralConfig {
        GeneralConfig {  }
    }
}

impl Default for GeneralConfig {
    fn default() -> GeneralConfig {
        GeneralConfig::new()
    }
}

/// Parameters applied to every ant, read at spawn time or per tick.
/// Lengths (speed, vision, mouth reach) are in thousandths of a world
/// unit; the angular speed is in milliradians per tick.
pub struct AntConfig {
    pub max_energy: u32,
    pub speed: i64,
    pub angular_speed: i64,
    pub vision_range: i64,
    pub energy_loss_amount: u32,
    pub energy_loss_rounds: u32,
    pub mouth_reach: i64,
    pub carry_capacity: u32,
}

impl AntConfig {
    /// The scalar parameters are non-negative and within machine bounds.
    pub open spec fn wf(&self) -> bool {
        &&& 0 <= self.speed <= SCALAR_LIMIT
        &&& 0 <= self.angular_speed <= SCALAR_LIMIT
        &&& 0 <= self.vision_range <= SCALAR_LIMIT
        &&& 0 <= self.mouth_reach <= SCALAR_LIMIT
    }

    /// The default settings.
    pub open spec fn default_spec() -> AntConfig {
        AntConfig {
            max_energy: 1000,
            speed: 1000,
            angular_speed: 100,
            vision_range: 100_000,
            energy_loss_amount: 1,
            energy_loss_rounds: 5,
            mouth_reach: 7000,
            carry_capacity: 4000,
        }
    }

    pub fn new() -> (r: AntConfig)
        ensures
            r == AntConfig::default_spec(),
            r.wf(),
    {
        AntConfig {
            max_energy: 1000,
            speed: 1000,
            angular_speed: 100,
            vision_range: 100_000,
            energy_loss_amount: 1,
            energy_loss_rounds: 5,
            mouth_reach: 7000,
            carry_capacity: 4000,
        }
    }
}

impl Default for AntConfig {
    fn default() -> (r: AntConfig)
        ensures
            r.wf(),
    {
        AntConfig::new()
    }
}

/// Parameters of food pellets and of the periodic food spawn.
pub struct FoodConfig {
    pub nutrition: u32,
    pub eaten_value: u32,
    pub spawn_time: u32,
    pub start_amount: u32,
}

impl FoodConfig {
    /// The spawn countdown must have somewhere to start.
    pub open spec fn wf(&self) -> bool {
        self.spawn_time >= 1
    }

    /// The default settings.
    pub open spec fn default_spec() -> FoodConfig {
        FoodConfig { nutrition: 1000, eaten_value: 1, spawn_time: 100, start_amount: 10 }
    }

    pub fn new() -> (r: FoodConfig)
        ensures
            r == FoodConfig::default_spec(),
            r.wf(),
    {
        FoodConfig { nutrition: 1000, eaten_value: 1, spawn_time: 100, start_amount: 10 }
    }
}

impl Default for FoodConfig {
    fn default() -> (r: FoodConfig)
        ensures
            r.wf(),
    {
        FoodConfig::new()
    }
}

/// Parameters of nests and of the ants they fund.
pub struct NestConfig {
    pub max_energy: u32,
    pub start_energy: u32,
    pub energy_loss_amount: u32,
    pub energy_loss_rounds: u32,
}

impl NestConfig {
    /// The default settings.
    pub open spec fn default_spec() -> NestConfig {
        NestConfig {
            max_energy: 10000,
            start_energy: 4000,
            energy_loss_amount: 1,
            energy_loss_rounds: 5,
        }
    }

    pub fn new() -> (r: NestConfig)
        ensures
            r == NestConfig::default_spec(),
    {
        NestConfig {
            max_energy: 10000,
            start_energy: 4000,
            energy_loss_amount: 1,
            energy_loss_rounds: 5,
        }
    }
}

impl Default for NestConfig {
    fn default() -> NestConfig {
        NestConfig::new()
    }
}

pub struct Config {
    pub ants: AntConfig,
    pub food: FoodConfig,
    pub nests: NestConfig,
    pub general: GeneralConfig,
}

impl Config {
    pub open spec fn wf(&self) -> bool {
        &&& self.ants.wf()
        &&& self.food.wf()
    }

    pub fn new() -> (r: Config)
        ensures
            r.wf(),
            r.ants == AntConfig::default_spec(),
            r.food == FoodConfig::default_spec(),
            r.nests == NestConfig::default_spec(),
    {
        Config {
            ants: AntConfig::new(),
            food: FoodConfig::new(),
            nests: NestConfig::new(),
            general: GeneralConfig::new(),
        }
    }
}

impl Default for Config {
    fn default() -> (r: Config)
        ensures
            r.wf(),
    {
        Config::new()
    }
}

} // verus!
