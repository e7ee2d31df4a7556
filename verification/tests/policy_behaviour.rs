//! Behaviour of the decision policies and of the trigonometric kernels
//! they steer by.

use ant_sim::ant::{Ant, AntAction};
use ant_sim::config::AntConfig;
use ant_sim::food::FoodPellet;
use ant_sim::nest::{Nest, NestAction};
use ant_sim::policy::{
    nearest_food, AntMemory, AntObjective, BasicForager, ForagerPolicy, NestPolicy,
};
use ant_sim::trig::{atan2_mrad, cos_mrad, sin_mrad};
use ant_sim::vector2d::Vector2D;
use ant_sim::vision::{SeenObject, Vision};

fn test_ant() -> Ant {
    let config = AntConfig::new();
    Ant::new_at(0, &config, Vector2D::new(50_000, 50_000))
}

fn pellet_at(x: i64, y: i64, id: usize) -> FoodPellet {
    FoodPellet {
        position: Vector2D::new(x, y),
        nutrition: 1000,
        bite_size: 1,
        id,
    }
}

#[test]
fn seven_way_draw_is_biased_toward_forward() {
    let ant = test_ant();
    let mut forward = 0;
    let mut left = 0;
    let mut right = 0;
    for draw in 0..7u64 {
        match BasicForager::decide_with(&ant, None, draw) {
            AntAction::GoForward(length) => {
                assert_eq!(length, 100_000);
                forward += 1;
            }
            AntAction::RotateLeft(angle) => {
                assert_eq!(angle, 1571);
                left += 1;
            }
            AntAction::RotateRight(angle) => {
                assert_eq!(angle, 1571);
                right += 1;
            }
            _ => panic!("unexpected exploration outcome"),
        }
    }
    assert_eq!(left, 1);
    assert_eq!(right, 1);
    assert_eq!(forward, 5);
}

#[test]
fn exploration_outcomes_stay_within_the_documented_set() {
    let ant = test_ant();
    let empty: Vec<Vision> = Vec::new();
    let mut policy = ForagerPolicy::new();
    for _ in 0..20 {
        let action = policy.ant_update(&ant, &empty);
        let ok = matches!(
            action,
            AntAction::GoForward(100_000)
                | AntAction::RotateLeft(1571)
                | AntAction::RotateRight(1571)
        );
        assert!(ok);
    }
}

#[test]
fn food_within_reach_is_eaten() {
    let ant = test_ant();
    let nearest = Some((pellet_at(55_000, 50_000, 3), 5_000));
    match BasicForager::decide_with(&ant, nearest, 0) {
        AntAction::EatFood(f) => assert_eq!(f.id, 3),
        _ => panic!("expected an eat action"),
    }
}

#[test]
fn food_straight_ahead_draws_the_ant_forward() {
    let ant = test_ant();
    let nearest = Some((pellet_at(120_000, 50_000, 1), 70_000));
    match BasicForager::decide_with(&ant, nearest, 0) {
        AntAction::GoForward(length) => assert_eq!(length, 100_000),
        _ => panic!("expected a forward stride"),
    }
}

#[test]
fn food_off_to_one_side_turns_the_ant() {
    let ant = test_ant();
    // Smaller y is up-screen; the ant faces along positive x, so the
    // target bearing differs by a quarter turn and the ant must rotate.
    let nearest = Some((pellet_at(50_000, 40_000, 1), 10_000));
    match BasicForager::decide_with(&ant, nearest, 0) {
        AntAction::RotateRight(angle) => assert_eq!(angle, 1571),
        other => panic!("expected a right turn, got {:?}", action_name(&other)),
    }
    let below = Some((pellet_at(50_000, 60_000, 1), 10_000));
    match BasicForager::decide_with(&ant, below, 0) {
        AntAction::RotateLeft(angle) => assert_eq!(angle, 1571),
        other => panic!("expected a left turn, got {:?}", action_name(&other)),
    }
}

fn action_name(action: &AntAction) -> &'static str {
    match action {
        AntAction::Nothing => "Nothing",
        AntAction::RotateLeft(_) => "RotateLeft",
        AntAction::RotateRight(_) => "RotateRight",
        AntAction::GoForward(_) => "GoForward",
        AntAction::EatFood(_) => "EatFood",
        AntAction::CarryFood(_) => "CarryFood",
        AntAction::UnloadFood => "UnloadFood",
    }
}

#[test]
fn nearest_food_keeps_the_first_of_equals() {
    let mut vision: Vec<Vision> = Vec::new();
    vision.push(Vision {
        object: SeenObject::Food(pellet_at(55_000, 50_000, 7)),
        distance: 5_000,
    });
    vision.push(Vision {
        object: SeenObject::Food(pellet_at(45_000, 50_000, 8)),
        distance: 5_000,
    });
    vision.push(Vision {
        object: SeenObject::Food(pellet_at(53_000, 50_000, 9)),
        distance: 3_000,
    });
    match nearest_food(&vision) {
        Some((f, d)) => {
            assert_eq!(f.id, 9);
            assert_eq!(d, 3_000);
        }
        None => panic!("expected a nearest pellet"),
    }

    vision.pop();
    match nearest_food(&vision) {
        Some((f, d)) => {
            assert_eq!(f.id, 7);
            assert_eq!(d, 5_000);
        }
        None => panic!("expected a nearest pellet"),
    }
}

#[test]
fn ant_sightings_are_ignored_by_the_forager() {
    let mut vision: Vec<Vision> = Vec::new();
    vision.push(Vision {
        object: SeenObject::Ant(test_ant()),
        distance: 1_000,
    });
    assert!(nearest_food(&vision).is_none());
}

#[test]
fn fresh_memory_starts_searching() {
    let mem = AntMemory::new();
    assert_eq!(mem.objective, AntObjective::Searching);
    assert!(mem.nest_pos.is_none());
}

#[test]
fn nest_policy_spawns_only_when_rich_and_patient() {
    let nest = Nest {
        id: 0,
        pos: Vector2D::new(0, 0),
        energy: 1001,
        rounds_to_energy_loss: 5,
    };
    let poor = Nest { energy: 1000, ..nest };

    let mut policy = NestPolicy::new();
    for frame in 0..60u64 {
        assert_eq!(policy.frames, frame);
        match policy.nest_update(&nest) {
            NestAction::Nothing => {}
            _ => panic!("expected patience"),
        }
    }
    match policy.nest_update(&poor) {
        NestAction::Nothing => {}
        _ => panic!("a poor nest must not spawn"),
    }
    assert_eq!(policy.frames, 61);
    match policy.nest_update(&nest) {
        NestAction::SpawnAnts(n) => assert_eq!(n, 1),
        _ => panic!("expected a spawn"),
    }
    assert_eq!(policy.frames, 0);
}

#[test]
fn forager_reset_forgets_the_nest() {
    let mut policy = ForagerPolicy::new();
    let ant = test_ant();
    let empty: Vec<Vision> = Vec::new();
    let _ = policy.ant_update(&ant, &empty);
    policy.reset();
    // After a reset the policy behaves as on first contact again: this is
    // only observable through later behaviour, so just exercise the call.
    let _ = policy.ant_update(&ant, &empty);
}

#[test]
fn trig_kernels_hit_their_anchor_values() {
    assert_eq!(sin_mrad(0), 0);
    assert_eq!(sin_mrad(1571), 1000);
    assert_eq!(cos_mrad(0), 1000);
    assert_eq!(cos_mrad(3142), -1000);
    assert_eq!(atan2_mrad(0, 1000), 0);
    assert_eq!(atan2_mrad(1000, 0), 1571);
    assert_eq!(atan2_mrad(-1000, 0), -1571);
    assert_eq!(atan2_mrad(0, -1000), 3142);
    assert_eq!(atan2_mrad(0, 0), 0);
}
