use kablewey::alien::{
    Alien, FiringDraw, FiringPlan, MovementDraw, MovementPlan, FIRE_MAX_MS, FIRE_MIN_MS,
    FIRST_DELAY_MS, MOVE_MAX_MS, MOVE_MIN_MS, RED_ONE_IN,
};
use kablewey::bullet::{Bullet, BulletColor, BulletFactoryImpl};
use kablewey::sprite::Footprint;
use rand::rngs::StdRng;
use rand::SeedableRng;

fn alien_at(pos: (i64, i64), seed: u64) -> Alien {
    Alien::starting_at(pos, (0, 800_000), StdRng::seed_from_u64(seed))
}

fn factory() -> BulletFactoryImpl {
    BulletFactoryImpl {
        red_sprite: Footprint { width: 12, height: 24 },
        green_sprite: Footprint { width: 10, height: 20 },
    }
}

fn slow_move(next_x: i64) -> Option<MovementDraw> {
    Some(MovementDraw { next_x, duration: 1999 })
}

#[test]
fn the_constants_are_the_documented_ones() {
    assert_eq!(MOVE_MIN_MS, 300);
    assert_eq!(MOVE_MAX_MS, 2000);
    assert_eq!(FIRST_DELAY_MS, 1000);
    assert_eq!(FIRE_MIN_MS, 200);
    assert_eq!(FIRE_MAX_MS, 700);
    assert_eq!(RED_ONE_IN, 5);
}

#[test]
fn a_new_alien_has_no_plans() {
    let alien = alien_at((50_000, 50_000), 1);
    assert_eq!(alien.pos(), (50_000, 50_000));
    assert_eq!(alien.x_movement_range, (0, 800_000));
    assert_eq!(alien.movement_plan, None);
    assert_eq!(alien.firing_plan, None);
    assert!(alien.is_wf());
    assert!(alien.is_settled_at(0));
    assert!(alien.is_settled_at(u64::MAX));
    assert!(!alien.will_fire(u64::MAX));
    assert!(!alien.about_to_fire(u64::MAX, u64::MAX));
}

#[test]
fn the_first_update_only_makes_plans() {
    let mut alien = alien_at((50_000, 50_000), 2);
    let fired = alien.update(40, &mut factory());
    assert_eq!(fired, None);
    assert_eq!(alien.pos(), (50_000, 50_000));
    assert_eq!(
        alien.firing_plan,
        Some(FiringPlan { dangerous: false, plan_made: 40, delay: 1000 })
    );
    let plan = alien.movement_plan.unwrap();
    assert_eq!(plan.start_pos, (50_000, 50_000));
    assert_eq!(plan.next_pos.1, 50_000);
    assert!(0 <= plan.next_pos.0 && plan.next_pos.0 < 800_000);
    assert_eq!(plan.plan_made, 40);
    assert!(300 <= plan.duration && plan.duration < 2000);
    assert!(alien.is_wf());
    assert!(alien.is_settled_at(40));
}

#[test]
fn the_first_shot_falls_after_exactly_a_second() {
    let mut alien = alien_at((50_000, 50_000), 3);
    let mut factory = factory();
    assert_eq!(alien.update(10, &mut factory), None);
    assert_eq!(alien.update(500, &mut factory), None);
    assert_eq!(alien.update(1009, &mut factory), None);
    assert_eq!(
        alien.firing_plan,
        Some(FiringPlan { dangerous: false, plan_made: 10, delay: 1000 })
    );
    let fired = alien.update(1010, &mut factory);
    assert_eq!(
        fired,
        Some(Bullet {
            pos: alien.pos(),
            color: BulletColor::Green,
            sprite: Footprint { width: 10, height: 20 },
        })
    );
    assert!(!fired.unwrap().deadly());
    let next = alien.firing_plan.unwrap();
    assert_eq!(next.plan_made, 1010);
    assert!(200 <= next.delay && next.delay < 700);
    assert_eq!(alien.update(1010, &mut factory), None);
    assert_eq!(alien.firing_plan, Some(next));
}

#[test]
fn a_late_update_fires_one_bullet_only() {
    let mut alien = alien_at((50_000, 50_000), 4);
    let mut factory = factory();
    assert_eq!(alien.update(0, &mut factory), None);
    assert!(alien.update(60_000, &mut factory).is_some());
    assert_eq!(alien.update(60_000, &mut factory), None);
    assert_eq!(alien.update(60_199, &mut factory), None);
    assert!(alien.update(60_700, &mut factory).is_some());
}

#[test]
fn a_shot_has_the_color_its_plan_was_made_with() {
    let mut alien = alien_at((50_000, 50_000), 5);
    let mut factory = factory();
    assert_eq!(alien.step(0, slow_move(400_000), None, &mut factory), None);
    let red_next = Some(FiringDraw { dangerous: true, delay: 250 });
    let first = alien.step(1000, None, red_next, &mut factory).unwrap();
    assert!(!first.deadly());
    assert_eq!(
        alien.firing_plan,
        Some(FiringPlan { dangerous: true, plan_made: 1000, delay: 250 })
    );
    assert_eq!(alien.step(1249, None, None, &mut factory), None);
    let green_next = Some(FiringDraw { dangerous: false, delay: 699 });
    let second = alien.step(1250, None, green_next, &mut factory).unwrap();
    assert!(second.deadly());
    assert_eq!(second.color, BulletColor::Red);
    assert_eq!(second.sprite, Footprint { width: 12, height: 24 });
    assert_eq!(second.pos, alien.pos());
    assert_eq!(
        alien.firing_plan,
        Some(FiringPlan { dangerous: false, plan_made: 1250, delay: 699 })
    );
    assert_eq!(alien.step(1948, None, None, &mut factory), None);
    let third = alien.step(1949, None, red_next, &mut factory).unwrap();
    assert!(!third.deadly());
}

#[test]
fn the_alien_moves_in_a_straight_line_to_its_target() {
    let mut alien = alien_at((50_000, 50_000), 6);
    let mut factory = factory();
    let draw = Some(MovementDraw { next_x: 650_000, duration: 600 });
    assert_eq!(alien.step(0, draw, None, &mut factory), None);
    assert_eq!(alien.pos(), (50_000, 50_000));
    assert_eq!(
        alien.movement_plan,
        Some(MovementPlan {
            start_pos: (50_000, 50_000),
            next_pos: (650_000, 50_000),
            plan_made: 0,
            duration: 600,
        })
    );
    alien.step(1, None, None, &mut factory);
    assert_eq!(alien.pos(), (51_000, 50_000));
    alien.step(300, None, None, &mut factory);
    assert_eq!(alien.pos(), (350_000, 50_000));
    alien.step(599, None, None, &mut factory);
    assert_eq!(alien.pos(), (649_000, 50_000));
}

#[test]
fn a_plan_that_is_over_puts_the_alien_on_its_target() {
    let mut alien = alien_at((50_000, 50_000), 7);
    let mut factory = factory();
    alien.step(0, Some(MovementDraw { next_x: 650_000, duration: 600 }), None, &mut factory);
    alien.step(599, None, None, &mut factory);
    let back = Some(MovementDraw { next_x: 0, duration: 300 });
    alien.step(600, back, None, &mut factory);
    assert_eq!(alien.pos(), (650_000, 50_000));
    assert_eq!(
        alien.movement_plan,
        Some(MovementPlan {
            start_pos: (650_000, 50_000),
            next_pos: (0, 50_000),
            plan_made: 600,
            duration: 300,
        })
    );
    alien.step(601, None, None, &mut factory);
    assert_eq!(alien.pos(), (647_834, 50_000));
    alien.step(750, None, None, &mut factory);
    assert_eq!(alien.pos(), (325_000, 50_000));
}

#[test]
fn a_plan_skipped_over_still_ends_on_its_target() {
    let mut alien = alien_at((50_000, 50_000), 8);
    let mut factory = factory();
    alien.step(0, Some(MovementDraw { next_x: 123_456, duration: 300 }), None, &mut factory);
    let fired = alien.step(
        5_000,
        Some(MovementDraw { next_x: 7, duration: 1999 }),
        Some(FiringDraw { dangerous: true, delay: 200 }),
        &mut factory,
    );
    assert_eq!(alien.pos(), (123_456, 50_000));
    assert_eq!(fired.unwrap().pos, (123_456, 50_000));
    assert_eq!(alien.movement_plan.unwrap().start_pos, (123_456, 50_000));
}

#[test]
fn the_way_covered_is_rounded_down() {
    let mut factory = factory();
    let mut left = alien_at((10, 0), 9);
    left.step(0, Some(MovementDraw { next_x: 0, duration: 300 }), None, &mut factory);
    left.step(100, None, None, &mut factory);
    assert_eq!(left.pos(), (7, 0));
    left.step(200, None, None, &mut factory);
    assert_eq!(left.pos(), (4, 0));
    left.step(299, None, None, &mut factory);
    assert_eq!(left.pos(), (1, 0));
    left.step(300, Some(MovementDraw { next_x: 5, duration: 300 }), None, &mut factory);
    assert_eq!(left.pos(), (0, 0));

    let mut right = alien_at((0, 0), 9);
    right.step(0, Some(MovementDraw { next_x: 10, duration: 300 }), None, &mut factory);
    right.step(100, None, None, &mut factory);
    assert_eq!(right.pos(), (3, 0));
    right.step(200, None, None, &mut factory);
    assert_eq!(right.pos(), (6, 0));
    right.step(299, None, None, &mut factory);
    assert_eq!(right.pos(), (9, 0));
}

#[test]
fn a_draw_that_is_not_due_is_ignored() {
    let mut alien = alien_at((50_000, 50_000), 10);
    let mut factory = factory();
    alien.step(0, slow_move(400_000), None, &mut factory);
    let plan = alien.movement_plan;
    let firing = alien.firing_plan;
    let fired = alien.step(
        10,
        Some(MovementDraw { next_x: 1, duration: 300 }),
        Some(FiringDraw { dangerous: true, delay: 200 }),
        &mut factory,
    );
    assert_eq!(fired, None);
    assert_eq!(alien.movement_plan, plan);
    assert_eq!(alien.firing_plan, firing);
}

#[test]
fn a_second_update_at_the_same_instant_changes_nothing() {
    let mut alien = alien_at((50_000, 50_000), 11);
    let mut factory = factory();
    for now in [0u64, 16, 700, 1000, 1001, 2500, 2500, 9000] {
        alien.update(now, &mut factory);
        let pos = alien.pos();
        let movement = alien.movement_plan;
        let firing = alien.firing_plan;
        assert!(alien.is_settled_at(now));
        assert_eq!(alien.update(now, &mut factory), None);
        assert_eq!(alien.pos(), pos);
        assert_eq!(alien.movement_plan, movement);
        assert_eq!(alien.firing_plan, firing);
    }
}

#[test]
fn the_alien_follows_the_plan_it_drew() {
    let mut alien = alien_at((50_000, 50_000), 12);
    let mut factory = factory();
    alien.update(100, &mut factory);
    let plan = alien.movement_plan.unwrap();
    let half = plan.duration / 2;
    alien.update(100 + half, &mut factory);
    let gap = (plan.next_pos.0 - 50_000).abs() as u128;
    let covered = (gap * half as u128 / plan.duration as u128) as i64;
    let expected = if plan.next_pos.0 >= 50_000 { 50_000 + covered } else { 50_000 - covered };
    assert_eq!(alien.pos(), (expected, 50_000));
    assert_eq!(plan.position(100 + half), (expected, 50_000));
    assert_eq!(plan.position(100 + plan.duration), plan.next_pos);
    assert!(!plan.is_over(100 + plan.duration - 1));
    assert!(plan.is_over(100 + plan.duration));
}

#[test]
fn the_alien_stays_in_its_lane_once_a_plan_has_run_out() {
    let mut alien = alien_at((-500_000, 50_000), 13);
    let mut factory = factory();
    alien.update(0, &mut factory);
    assert!(!alien.is_in_lane());
    let first = alien.movement_plan.unwrap();
    let mut resolved = false;
    let mut now = 0;
    while now < 60_000 {
        now += 16;
        alien.update(now, &mut factory);
        if now >= first.plan_made + first.duration {
            resolved = true;
        }
        if resolved {
            assert!(alien.is_in_lane());
            assert!(0 <= alien.pos().0 && alien.pos().0 <= 800_000);
        }
        assert_eq!(alien.pos().1, 50_000);
        assert!(alien.is_wf());
        assert!(alien.is_settled_at(now));
    }
    assert!(resolved);
}

#[test]
fn the_draws_fall_within_their_ranges_and_vary() {
    let mut alien = alien_at((50_000, 50_000), 14);
    let mut factory = factory();
    let mut targets = Vec::new();
    let mut durations = Vec::new();
    let mut delays = Vec::new();
    let mut reds = 0;
    let mut greens = 0;
    let mut now = 0;
    alien.update(now, &mut factory);
    let mut movement = alien.movement_plan;
    let mut firing = alien.firing_plan;
    while now < 400_000 {
        now += 10;
        alien.update(now, &mut factory);
        if alien.movement_plan != movement {
            movement = alien.movement_plan;
            let plan = movement.unwrap();
            assert!(0 <= plan.next_pos.0 && plan.next_pos.0 < 800_000);
            assert!(300 <= plan.duration && plan.duration < 2000);
            assert_eq!(plan.plan_made, now);
            targets.push(plan.next_pos.0);
            durations.push(plan.duration);
        }
        if alien.firing_plan != firing {
            firing = alien.firing_plan;
            let plan = firing.unwrap();
            assert!(200 <= plan.delay && plan.delay < 700);
            assert_eq!(plan.plan_made, now);
            delays.push(plan.delay);
            if plan.dangerous {
                reds += 1;
            } else {
                greens += 1;
            }
        }
    }
    assert!(targets.len() > 100);
    assert!(delays.len() > 400);
    targets.sort();
    targets.dedup();
    durations.sort();
    durations.dedup();
    delays.sort();
    delays.dedup();
    assert!(targets.len() > 50);
    assert!(durations.len() > 50);
    assert!(delays.len() > 50);
    assert!(reds > 0);
    assert!(greens > reds);
}

#[test]
fn the_same_seed_gives_the_same_game() {
    let mut one = alien_at((50_000, 50_000), 15);
    let mut other = alien_at((50_000, 50_000), 15);
    let mut factory = factory();
    let mut now = 0;
    while now < 20_000 {
        now += 16;
        let a = one.update(now, &mut factory);
        let b = other.update(now, &mut factory);
        assert_eq!(a, b);
        assert_eq!(one.pos(), other.pos());
        assert_eq!(one.movement_plan, other.movement_plan);
        assert_eq!(one.firing_plan, other.firing_plan);
    }
}

#[test]
fn will_fire_tells_whether_the_delay_has_passed() {
    let mut alien = alien_at((50_000, 50_000), 16);
    alien.update(100, &mut factory());
    assert!(!alien.will_fire(0));
    assert!(!alien.will_fire(1099));
    assert!(alien.will_fire(1100));
    assert!(alien.will_fire(u64::MAX));
    assert_eq!(
        alien.firing_plan,
        Some(FiringPlan { dangerous: false, plan_made: 100, delay: 1000 })
    );
}

#[test]
fn a_movement_plan_is_due_when_there_is_none_or_it_is_over() {
    let mut alien = alien_at((50_000, 50_000), 19);
    assert!(alien.is_movement_due(0));
    assert!(alien.is_movement_due(u64::MAX));
    alien.step(100, Some(MovementDraw { next_x: 5, duration: 300 }), None, &mut factory());
    assert!(!alien.is_movement_due(0));
    assert!(!alien.is_movement_due(100));
    assert!(!alien.is_movement_due(399));
    assert!(alien.is_movement_due(400));
}

#[test]
fn about_to_fire_looks_ahead() {
    let mut alien = alien_at((50_000, 50_000), 17);
    alien.update(100, &mut factory());
    assert!(!alien.about_to_fire(100, 200));
    assert!(!alien.about_to_fire(899, 200));
    assert!(alien.about_to_fire(900, 200));
    assert!(alien.about_to_fire(1100, 0));
    assert!(!alien.about_to_fire(1099, 0));
    assert!(alien.about_to_fire(u64::MAX, u64::MAX));
    assert_eq!(
        alien.firing_plan,
        Some(FiringPlan { dangerous: false, plan_made: 100, delay: 1000 })
    );
}

#[test]
fn a_plan_is_over_even_where_its_end_is_past_the_last_instant() {
    let plan = FiringPlan { dangerous: false, plan_made: u64::MAX - 10, delay: 1000 };
    assert!(!plan.is_over(u64::MAX));
    let plan = MovementPlan {
        start_pos: (0, 0),
        next_pos: (1000, 0),
        plan_made: u64::MAX - 10,
        duration: 20,
    };
    assert!(!plan.is_over(u64::MAX));
    assert_eq!(plan.position(u64::MAX), (500, 0));
}

#[test]
fn the_checks_tell_a_broken_alien() {
    let mut alien = alien_at((50_000, 50_000), 18);
    alien.update(100, &mut factory());
    assert!(alien.is_wf());
    assert!(alien.is_settled_at(100));
    assert!(!alien.is_settled_at(99));
    assert!(!alien.is_settled_at(1100));
    let mut moved = alien_at((50_000, 50_000), 18);
    moved.update(100, &mut factory());
    moved.pos = (50_001, 50_000);
    assert!(!moved.is_settled_at(100));
    let mut narrow = alien_at((50_000, 50_000), 18);
    narrow.x_movement_range = (5, 5);
    assert!(!narrow.is_wf());
    let mut off = alien_at((50_000, 50_000), 18);
    off.update(100, &mut factory());
    off.x_movement_range = (800_000, 900_000);
    assert!(!off.is_wf());
    assert!(!off.is_in_lane());
}
