//! Behaviour of the world: sensing, the tick pipeline, cleanup, the food
//! spawn countdown, and the end-to-end scenarios.

use ant_sim::ant::{Ant, AntAction};
use ant_sim::food::FoodPellet;
use ant_sim::ground::Ground;
use ant_sim::nest::{Nest, NestAction};
use ant_sim::policy::{BasicForager, ForagerPolicy, NestPolicy};
use ant_sim::vector2d::Vector2D;
use ant_sim::vision::{SeenObject, Vision};
use ant_sim::{AntLogic, NestLogic};

/// A policy that never does anything.
struct IdlePolicy;

impl AntLogic for IdlePolicy {
    fn update(&mut self, _ant: &Ant, _vision: &Vec<Vision>) -> AntAction {
        AntAction::Nothing
    }
}

/// A nest policy that never spawns.
struct IdleNests;

impl NestLogic for IdleNests {
    fn update(&mut self, _nest: &Nest) -> NestAction {
        NestAction::Nothing
    }
}

/// A policy that keeps trying to eat a pellet that no longer exists.
struct StaleEater;

impl AntLogic for StaleEater {
    fn update(&mut self, _ant: &Ant, _vision: &Vec<Vision>) -> AntAction {
        AntAction::EatFood(FoodPellet {
            position: Vector2D::new(0, 0),
            nutrition: 1000,
            bite_size: 1,
            id: 999,
        })
    }
}

/// A 1000 x 1000 unit world.
fn world() -> Ground {
    Ground::new_empty(Vector2D::new(1_000_000, 1_000_000))
}

fn add_ant(g: &mut Ground, pos: Vector2D) {
    let ant = Ant::new_at(g.next_ant_id, &g.config.ants, pos);
    g.ants.push(ant);
    g.next_ant_id += 1;
}

fn add_food(g: &mut Ground, pos: Vector2D, nutrition: u32, bite_size: u32) {
    let pellet = FoodPellet {
        position: pos,
        nutrition,
        bite_size,
        id: g.next_food_id,
    };
    g.food.push(pellet);
    g.next_food_id += 1;
}

#[test]
fn new_world_is_empty_with_primed_timer() {
    let g = world();
    assert_eq!(g.num_ants(), 0);
    assert_eq!(g.num_foods(), 0);
    assert_eq!(g.num_colonies(), 0);
    assert_eq!(g.food_timer, 100);
}

#[test]
fn vision_reports_exactly_the_entities_in_range() {
    let mut g = world();
    add_ant(&mut g, Vector2D::new(50_000, 50_000));
    add_ant(&mut g, Vector2D::new(100_000, 50_000));
    add_ant(&mut g, Vector2D::new(900_000, 900_000));
    add_food(&mut g, Vector2D::new(55_000, 50_000), 1000, 1);
    add_food(&mut g, Vector2D::new(500_000, 50_000), 1000, 1);

    let seen = g.vision_for(0);
    assert_eq!(seen.len(), 2);
    match seen[0].object {
        SeenObject::Ant(a) => assert_eq!(a.id, 1),
        _ => panic!("expected the nearby ant first"),
    }
    assert_eq!(seen[0].distance, 50_000);
    match seen[1].object {
        SeenObject::Food(f) => assert_eq!(f.id, 0),
        _ => panic!("expected the nearby pellet second"),
    }
    assert_eq!(seen[1].distance, 5_000);
}

#[test]
fn vision_excludes_the_observer_itself() {
    let mut g = world();
    add_ant(&mut g, Vector2D::new(50_000, 50_000));
    let seen = g.vision_for(0);
    assert_eq!(seen.len(), 0);
}

#[test]
fn cleanup_removes_exactly_the_dead() {
    let mut g = world();
    add_ant(&mut g, Vector2D::new(50_000, 50_000));
    add_ant(&mut g, Vector2D::new(60_000, 50_000));
    g.ants[0].energy = 1;
    g.ants[0].rounds_to_energy_loss = 1;
    g.ants[1].rounds_to_energy_loss = 1;
    g.config.ants.energy_loss_amount = 1;

    g.update(16, &mut IdlePolicy, &mut IdleNests);

    assert_eq!(g.num_ants(), 1);
    assert_eq!(g.ants[0].id, 1);
    assert_eq!(g.ants[0].energy, 999);
}

#[test]
fn stale_food_reference_is_a_no_op() {
    let mut g = world();
    add_ant(&mut g, Vector2D::new(50_000, 50_000));
    add_food(&mut g, Vector2D::new(55_000, 50_000), 1000, 1);

    g.update(16, &mut StaleEater, &mut IdleNests);

    assert_eq!(g.num_foods(), 1);
    assert_eq!(g.food[0].nutrition, 1000);
    assert_eq!(g.ants[0].energy, 1000);
}

#[test]
fn food_spawns_exactly_on_the_timer() {
    let mut g = world();
    g.config.food.spawn_time = 3;
    g.reset_food_time();

    let mut counts = Vec::new();
    for _ in 0..9 {
        g.update(16, &mut IdlePolicy, &mut IdleNests);
        counts.push(g.num_foods());
    }
    assert_eq!(counts, vec![0, 0, 1, 1, 1, 2, 2, 2, 3]);
}

#[test]
fn spawned_food_lies_inside_the_world() {
    let mut g = world();
    g.start_new_round();
    assert_eq!(g.num_foods(), 10);
    for pellet in g.food.iter() {
        assert!(0 <= pellet.position.x && pellet.position.x < 1_000_000);
        assert!(0 <= pellet.position.y && pellet.position.y < 1_000_000);
        assert_eq!(pellet.nutrition, 1000);
        assert_eq!(pellet.bite_size, 1);
    }
}

#[test]
fn tiny_world_pins_the_random_spawn() {
    let mut g = Ground::new_empty(Vector2D::new(1, 1));
    g.start_new_round();
    for pellet in g.food.iter() {
        assert_eq!(pellet.position.x, 0);
        assert_eq!(pellet.position.y, 0);
    }
    assert_eq!(g.nests[0].pos.x, 0);
    assert_eq!(g.nests[0].pos.y, 0);
}

#[test]
fn start_new_round_resets_everything() {
    let mut g = world();
    add_ant(&mut g, Vector2D::new(50_000, 50_000));
    add_food(&mut g, Vector2D::new(55_000, 50_000), 1000, 1);
    g.start_new_round();
    assert_eq!(g.num_ants(), 0);
    assert_eq!(g.num_colonies(), 1);
    assert_eq!(g.num_foods(), 10);
    assert_eq!(g.food[0].id, 0);
    assert_eq!(g.nests[0].id, 0);
    assert_eq!(g.nests[0].energy, 4000);
}

#[test]
fn scenario_close_pellet_is_eaten() {
    let mut g = world();
    add_ant(&mut g, Vector2D::new(50_000, 50_000));
    add_food(&mut g, Vector2D::new(55_000, 50_000), 1000, 1);
    assert_eq!(g.ants[0].energy, 1000);

    let mut policy = BasicForager::new();
    g.update(16, &mut policy, &mut IdleNests);

    assert_eq!(g.ants[0].energy, 1000);
    assert_eq!(g.food[0].nutrition, 999);
    assert_eq!(g.ants[0].position.x, 50_000);
    assert_eq!(g.ants[0].position.y, 50_000);
}

#[test]
fn scenario_far_pellet_triggers_exploration() {
    let mut g = world();
    add_ant(&mut g, Vector2D::new(50_000, 50_000));
    add_food(&mut g, Vector2D::new(500_000, 50_000), 1000, 1);

    assert_eq!(g.vision_for(0).len(), 0);

    let mut policy = BasicForager::new();
    g.update(16, &mut policy, &mut IdleNests);

    assert_eq!(g.food[0].nutrition, 1000);
    let ant = g.ants[0];
    let moved = ant.position.x == 51_000 && ant.position.y == 50_000
        && ant.rotation.get_mrad() == 0;
    let turned_left = ant.rotation.get_mrad() == 6183 && ant.position.x == 50_000;
    let turned_right = ant.rotation.get_mrad() == 100 && ant.position.x == 50_000;
    assert!(moved || turned_left || turned_right);
}

#[test]
fn forager_carries_food_home_and_unloads() {
    let mut g = world();
    add_ant(&mut g, Vector2D::new(50_000, 50_000));
    add_food(&mut g, Vector2D::new(55_000, 50_000), 1000, 1);

    let mut policy = ForagerPolicy::new();

    // Sated ant at the pellet: GoToFood then Eating then CarryFood in one
    // call chain; the pellet is emptied into the carry buffer and swept
    // away by cleanup.
    g.update(16, &mut policy, &mut IdleNests);
    assert_eq!(g.num_foods(), 0);
    assert_eq!(g.ants[0].carrying, 1000);

    // Standing at its remembered nest position, the ant unloads.
    g.update(16, &mut policy, &mut IdleNests);
    assert_eq!(g.ants[0].carrying, 0);
}

#[test]
fn nests_fund_new_ants_from_their_energy() {
    let mut g = world();
    g.nests.push(Nest {
        id: 0,
        pos: Vector2D::new(200_000, 200_000),
        energy: 4000,
        rounds_to_energy_loss: 5,
    });
    g.next_colony_id = 1;

    let mut nest_policy = NestPolicy::new();
    nest_policy.frames = 60;
    g.update(16, &mut IdlePolicy, &mut nest_policy);

    assert_eq!(g.num_ants(), 1);
    assert_eq!(g.ants[0].position.x, 200_000);
    assert_eq!(g.ants[0].position.y, 200_000);
    assert_eq!(g.ants[0].energy, 1000);
    assert_eq!(g.nests[0].energy, 3500);
    assert_eq!(nest_policy.frames, 0);
}

#[test]
fn reset_food_time_restores_the_countdown() {
    let mut g = world();
    g.config.food.spawn_time = 7;
    g.reset_food_time();
    assert_eq!(g.food_timer, 7);
}

/// A nest policy that always asks for five ants.
struct EagerNests;

impl NestLogic for EagerNests {
    fn update(&mut self, _nest: &Nest) -> NestAction {
        NestAction::SpawnAnts(5)
    }
}

#[test]
fn nest_spawning_stops_at_the_energy_floor() {
    let mut g = world();
    g.nests.push(Nest {
        id: 0,
        pos: Vector2D::new(300_000, 300_000),
        energy: 1200,
        rounds_to_energy_loss: 5,
    });
    g.next_colony_id = 1;

    g.update(16, &mut IdlePolicy, &mut EagerNests);

    // 1200 funds two ants (1200 -> 700 -> 200); a third would need more
    // than the spawn cost in reserve.
    assert_eq!(g.num_ants(), 2);
    assert_eq!(g.ants[0].id, 0);
    assert_eq!(g.ants[1].id, 1);
    assert_eq!(g.ants[0].position.x, 300_000);
    assert_eq!(g.nests[0].energy, 200);
}
