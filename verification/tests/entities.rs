//! Behaviour of the entity mutators: eating, carrying, moving, turning,
//! and the scalar kernels they are built on.

use ant_sim::ant::{Ant, AntAction};
use ant_sim::config::AntConfig;
use ant_sim::food::FoodPellet;
use ant_sim::ground::Ground;
use ant_sim::num::clamp_i64;
use ant_sim::rotation::Rotation;
use ant_sim::vector2d::Vector2D;

fn test_ant() -> Ant {
    let config = AntConfig::new();
    Ant::new_at(0, &config, Vector2D::new(50_000, 50_000))
}

fn test_pellet(nutrition: u32, bite_size: u32) -> FoodPellet {
    FoodPellet {
        position: Vector2D::new(55_000, 50_000),
        nutrition,
        bite_size,
        id: 0,
    }
}

#[test]
fn eat_food_clamps_energy_at_max() {
    let mut ant = test_ant();
    ant.energy = 995;
    let mut pellet = test_pellet(10, 10);
    ant.eat_food(&mut pellet);
    assert_eq!(ant.energy, 1000);
    assert_eq!(pellet.nutrition, 0);
}

#[test]
fn eat_food_partial_bite_when_nutrition_low() {
    let mut ant = test_ant();
    ant.energy = 0;
    let mut pellet = test_pellet(2, 5);
    ant.eat_food(&mut pellet);
    assert_eq!(ant.energy, 2);
    assert_eq!(pellet.nutrition, 0);
}

#[test]
fn energy_stays_in_range_over_any_eat_sequence() {
    let mut ant = test_ant();
    ant.energy = 990;
    let mut pellet = test_pellet(100, 7);
    for _ in 0..30 {
        ant.eat_food(&mut pellet);
        assert!(ant.energy <= ant.max_energy);
    }
    assert_eq!(ant.energy, 1000);
}

#[test]
fn nutrition_is_monotonic_and_reaches_zero() {
    let mut pellet = test_pellet(10, 3);
    let mut last = pellet.nutrition;
    let mut bites = Vec::new();
    for _ in 0..6 {
        bites.push(pellet.get_eaten());
        assert!(pellet.nutrition <= last);
        last = pellet.nutrition;
    }
    assert_eq!(bites, vec![3, 3, 3, 1, 0, 0]);
    assert_eq!(pellet.nutrition, 0);
    assert!(!pellet.is_some_left());
}

#[test]
fn movement_is_capped_at_speed() {
    let mut ant = test_ant();
    ant.go_forward(100_000);
    assert_eq!(ant.position.x, 51_000);
    assert_eq!(ant.position.y, 50_000);
}

#[test]
fn movement_is_capped_backward_too() {
    let mut ant = test_ant();
    ant.go_forward(-100_000);
    assert_eq!(ant.position.x, 49_000);
    assert_eq!(ant.position.y, 50_000);
}

#[test]
fn movement_within_speed_is_taken_in_full() {
    let mut ant = test_ant();
    ant.go_forward(500);
    assert_eq!(ant.position.x, 50_500);
    assert_eq!(ant.position.y, 50_000);
}

#[test]
fn rotation_is_capped_at_angular_speed() {
    let mut ant = test_ant();
    ant.rotate_right(500);
    assert_eq!(ant.rotation.get_mrad(), 100);
    ant.rotate_left(500);
    assert_eq!(ant.rotation.get_mrad(), 0);
    ant.rotate_right(50);
    assert_eq!(ant.rotation.get_mrad(), 50);
}

#[test]
fn rotation_wraps_to_canonical_range() {
    let r = Rotation::new_mrad(-100);
    assert_eq!(r.get_mrad(), 6183);
    let r2 = r.add_mrad(200);
    assert_eq!(r2.get_mrad(), 100);
    let r3 = Rotation::new_mrad(0).sub_mrad(1);
    assert_eq!(r3.get_mrad(), 6282);
}

#[test]
fn carry_food_moves_up_to_capacity() {
    let config = AntConfig::new();
    let mut ant = test_ant();
    let mut pellet = test_pellet(1000, 1);
    ant.carry_food(&mut pellet, &config);
    assert_eq!(ant.carrying, 1000);
    assert_eq!(pellet.nutrition, 0);

    let mut big = test_pellet(10_000, 1);
    ant.carry_food(&mut big, &config);
    assert_eq!(ant.carrying, 4000);
    assert_eq!(big.nutrition, 7000);
}

#[test]
fn unload_food_empties_the_buffer() {
    let config = AntConfig::new();
    let mut ant = test_ant();
    let mut pellet = test_pellet(123, 1);
    ant.carry_food(&mut pellet, &config);
    let unloaded = ant.unload_food(&config);
    assert_eq!(unloaded, 123);
    assert_eq!(ant.carrying, 0);
}

#[test]
fn boundary_clamp_is_idempotent() {
    let size = Vector2D::new(1_000_000, 1_000_000);
    let mut ant = test_ant();
    ant.position = Vector2D::new(-5_000, 2_000_000);
    Ground::push_ant_into_boundary(&mut ant, size);
    assert_eq!(ant.position.x, 0);
    assert_eq!(ant.position.y, 1_000_000);
    Ground::push_ant_into_boundary(&mut ant, size);
    assert_eq!(ant.position.x, 0);
    assert_eq!(ant.position.y, 1_000_000);
}

#[test]
fn boundary_clamp_leaves_inside_positions_alone() {
    let size = Vector2D::new(1_000_000, 1_000_000);
    let mut ant = test_ant();
    Ground::push_ant_into_boundary(&mut ant, size);
    assert_eq!(ant.position.x, 50_000);
    assert_eq!(ant.position.y, 50_000);
}

#[test]
fn clamp_scalar_works_on_both_ends() {
    assert_eq!(clamp_i64(5, 0, 10), 5);
    assert_eq!(clamp_i64(-3, 0, 10), 0);
    assert_eq!(clamp_i64(42, 0, 10), 10);
    assert_eq!(clamp_i64(clamp_i64(42, 0, 10), 0, 10), 10);
}

#[test]
fn distance_is_exact_on_integer_triangles() {
    let a = Vector2D::new(0, 0);
    let b = Vector2D::new(3_000, 4_000);
    assert_eq!(a.distance_squared(b), 25_000_000);
    assert_eq!(a.distance(b), 5_000);
    assert_eq!(b.length(), 5_000);
}

#[test]
fn normalize_scales_to_unit_length() {
    let mut v = Vector2D::new(3_000, 4_000);
    v.normalize();
    assert_eq!(v.x, 600);
    assert_eq!(v.y, 800);

    let mut zero = Vector2D::new(0, 0);
    zero.normalize();
    assert_eq!(zero.x, 0);
    assert_eq!(zero.y, 0);
}

#[test]
fn vector_arithmetic_is_componentwise() {
    let a = Vector2D::new(10, -20);
    let b = Vector2D::new(3, 4);
    let s = a.add(b);
    assert_eq!((s.x, s.y), (13, -16));
    let d = a.sub(b);
    assert_eq!((d.x, d.y), (7, -24));
    let m = Vector2D::new(3_000, -2_000).scale(500);
    assert_eq!((m.x, m.y), (1_500, -1_000));
}

#[test]
fn actions_carry_their_payload() {
    let pellet = test_pellet(5, 1);
    let action = AntAction::EatFood(pellet);
    match action {
        AntAction::EatFood(f) => assert_eq!(f.id, 0),
        _ => panic!("wrong variant"),
    }
}

#[test]
fn pellet_identity_is_by_id_alone() {
    let a = test_pellet(100, 3);
    let mut b = test_pellet(999, 7);
    b.position = Vector2D::new(0, 0);
    assert!(a == b);
    let mut c = test_pellet(100, 3);
    c.id = 1;
    assert!(a != c);
}

#[test]
fn config_defaults_match_the_documented_settings() {
    let config = ant_sim::config::Config::new();
    assert_eq!(config.ants.max_energy, 1000);
    assert_eq!(config.ants.speed, 1000);
    assert_eq!(config.ants.angular_speed, 100);
    assert_eq!(config.ants.vision_range, 100_000);
    assert_eq!(config.ants.energy_loss_amount, 1);
    assert_eq!(config.ants.energy_loss_rounds, 5);
    assert_eq!(config.ants.mouth_reach, 7_000);
    assert_eq!(config.ants.carry_capacity, 4_000);
    assert_eq!(config.food.nutrition, 1000);
    assert_eq!(config.food.eaten_value, 1);
    assert_eq!(config.food.spawn_time, 100);
    assert_eq!(config.food.start_amount, 10);
    assert_eq!(config.nests.max_energy, 10_000);
    assert_eq!(config.nests.start_energy, 4_000);
    assert_eq!(config.nests.energy_loss_amount, 1);
    assert_eq!(config.nests.energy_loss_rounds, 5);

    let from_default = ant_sim::config::AntConfig::default();
    assert_eq!(from_default.max_energy, 1000);
}
