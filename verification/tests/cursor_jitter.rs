use hermes_clicker::jitter::{
    combine_offsets, jitter_interval_ms, jitter_radius, manual_move_tolerance, point_distance,
    CursorJitter, ScreenPoint,
};
use hermes_clicker::worker::ClickRate;

const MS: u64 = 1_000_000;

fn p(x: i32, y: i32) -> ScreenPoint {
    ScreenPoint { x, y }
}

#[test]
fn rate_tables() {
    assert_eq!(jitter_interval_ms(ClickRate::Slow), 180);
    assert_eq!(jitter_interval_ms(ClickRate::Maximum), 42);
    assert_eq!(jitter_interval_ms(ClickRate::Fps), 85);
    assert_eq!(jitter_radius(ClickRate::Slow), 1);
    assert_eq!(jitter_radius(ClickRate::Maximum), 6);
    assert_eq!(manual_move_tolerance(ClickRate::Turbo), 6);
}

#[test]
fn distance_is_the_larger_difference() {
    assert_eq!(point_distance(p(0, 0), p(3, -4)), 4);
    assert_eq!(point_distance(p(-10, 5), p(10, 5)), 20);
    assert_eq!(point_distance(p(i32::MIN, 0), p(i32::MAX, 0)), 4294967295);
}

#[test]
fn offsets_average_toward_zero() {
    assert_eq!(combine_offsets(3, 4), 3);
    assert_eq!(combine_offsets(-3, -4), -3);
    assert_eq!(combine_offsets(-1, 2), 0);
    assert_eq!(combine_offsets(-6, -6), -6);
}

#[test]
fn disabled_jitter_resets() {
    let mut j = CursorJitter::new(0);
    j.anchor = Some(p(5, 5));
    j.pause_until = Some(100);
    assert!(!j.begin_tick(false, 50));
    assert_eq!(j.anchor, None);
    assert_eq!(j.pause_until, None);
    assert_eq!(j.next_jitter_at, 50);
}

#[test]
fn moves_within_radius_of_anchor() {
    let mut j = CursorJitter::new(0);
    let mut seen = Vec::new();
    for round in 0..50u64 {
        let now = round * 200 * MS;
        assert!(j.begin_tick(true, now));
        let target = j.plan_move(ClickRate::Maximum, now, Some(p(100, 200))).unwrap();
        assert_eq!(j.anchor, Some(p(100, 200)));
        assert!((target.x - 100).abs() <= 6 && (target.y - 200).abs() <= 6);
        if !seen.contains(&target) {
            seen.push(target);
        }
        // The cursor stays where the jitter put it.
        j.record_move(ClickRate::Maximum, now, target, true);
        assert_eq!(j.expected, Some(target));
        assert_eq!(j.next_jitter_at, now + 42 * MS);
    }
    // The offsets are drawn at random, not fixed.
    assert!(seen.len() > 1);
}

#[test]
fn waits_until_due() {
    let mut j = CursorJitter::new(0);
    j.record_move(ClickRate::Slow, 0, p(0, 0), false);
    assert_eq!(j.expected, None);
    assert!(!j.begin_tick(true, 179 * MS));
    assert!(j.begin_tick(true, 180 * MS));
}

#[test]
fn unreadable_cursor_retries_later() {
    let mut j = CursorJitter::new(0);
    assert!(j.begin_tick(true, 5));
    assert_eq!(j.plan_move(ClickRate::Normal, 5, None), None);
    assert_eq!(j.next_jitter_at, 5 + 100 * MS);
}

#[test]
fn manual_move_pauses_and_reanchors() {
    let mut j = CursorJitter::new(0);
    j.begin_tick(true, 0);
    let target = j.plan_move(ClickRate::Normal, 0, Some(p(0, 0))).unwrap();
    j.record_move(ClickRate::Normal, 0, target, true);
    let now = 200 * MS;
    assert!(j.begin_tick(true, now));
    // Far from where the jitter put the cursor: the user moved it.
    assert_eq!(j.plan_move(ClickRate::Normal, now, Some(p(500, 500))), None);
    assert_eq!(j.pause_until, Some(now + 700 * MS));
    assert_eq!(j.anchor, Some(p(500, 500)));
    assert_eq!(j.expected, None);
    // Paused: nothing happens until the pause ends.
    assert!(!j.begin_tick(true, now + 699 * MS));
    assert_eq!(j.anchor, Some(p(500, 500)));
    // After the pause the anchor is forgotten and the next position anchors.
    assert!(j.begin_tick(true, now + 700 * MS));
    assert_eq!(j.anchor, None);
    assert_eq!(j.pause_until, None);
    let t = j.plan_move(ClickRate::Normal, now + 700 * MS, Some(p(510, 490))).unwrap();
    assert_eq!(j.anchor, Some(p(510, 490)));
    assert!((t.x - 510).abs() <= 2 && (t.y - 490).abs() <= 2);
}

#[test]
fn small_drift_is_not_a_manual_move() {
    let mut j = CursorJitter::new(0);
    j.begin_tick(true, 0);
    let target = j.plan_move(ClickRate::Slow, 0, Some(p(0, 0))).unwrap();
    j.record_move(ClickRate::Slow, 0, target, true);
    let now = 180 * MS;
    assert!(j.begin_tick(true, now));
    let drift = p(target.x + 3, target.y - 3);
    assert!(j.plan_move(ClickRate::Slow, now, Some(drift)).is_some());
    assert_eq!(j.pause_until, None);
    assert_eq!(j.anchor, Some(p(0, 0)));
}
