use impact_pipeline::SetupError;
use impact_pipeline::appearance::{impact_appearance, resting_appearance};
use impact_pipeline::channel::SingleSlot;
use impact_pipeline::reaction::{ReactionDriver, DISPATCH_DELAY_MS, HOLD_MS};

#[test]
fn empty_target_set_is_fatal_at_setup() {
    // No targets: the driver refuses to start instead of faulting later
    // inside the dispatch loop.
    let r = ReactionDriver::new(0);
    assert_eq!(r, Err(SetupError::EmptyTargetSet));
}

#[test]
fn cursor_advances_once_per_event_and_wraps() {
    // Four targets, four consecutive events: each target is hit exactly
    // once, in order, and the cursor returns to its starting value.
    let mut driver = ReactionDriver::new(4).unwrap();
    assert_eq!(driver.cursor, 0);
    let mut targets = Vec::new();
    for _ in 0..4 {
        let plan = driver.on_event(0);
        targets.push(plan.target);
    }
    assert_eq!(targets, vec![0, 1, 2, 3]);
    assert_eq!(driver.cursor, 0);
}

#[test]
fn dispatches_are_spaced_by_the_fixed_delay() {
    // Two events only 10 ms apart: the second action's onset waits until at
    // least DISPATCH_DELAY_MS after the first action's onset (and after its
    // second phase).
    let mut driver = ReactionDriver::new(2).unwrap();
    let plan1 = driver.on_event(0);
    let plan2 = driver.on_event(10);
    assert_eq!(plan1.fire_at, DISPATCH_DELAY_MS);
    assert_eq!(plan1.release_at, DISPATCH_DELAY_MS + HOLD_MS);
    assert_eq!(plan2.fire_at, plan1.release_at + DISPATCH_DELAY_MS);
    assert!(plan2.fire_at >= plan1.fire_at + DISPATCH_DELAY_MS);
}

#[test]
fn late_event_is_dispatched_from_its_arrival() {
    // An event arriving after the driver went idle waits only the fixed
    // delay from its own arrival.
    let mut driver = ReactionDriver::new(2).unwrap();
    let plan1 = driver.on_event(0);
    let plan2 = driver.on_event(10_000);
    assert_eq!(plan1.fire_at, 200);
    assert_eq!(plan2.fire_at, 10_200);
}

#[test]
fn single_slot_is_latest_wins() {
    // Offering while an item is unclaimed replaces it; the producer is never
    // made to wait, and the newest window wins.
    let mut slot: SingleSlot<u32> = SingleSlot::empty();
    assert!(!slot.is_occupied());
    slot.offer(1);
    slot.offer(2);
    assert!(slot.is_occupied());
    assert_eq!(slot.claim(), Some(2));
    assert!(!slot.is_occupied());
    assert_eq!(slot.claim(), None);
}

#[test]
fn two_phase_appearances() {
    let onset = impact_appearance();
    let rest = resting_appearance();
    assert_eq!(onset.brightness, 255);
    assert_eq!(onset.hue, 41000);
    assert_eq!(onset.saturation, 70);
    assert_eq!(onset.x_milli, 200);
    assert_eq!(onset.y_milli, 200);
    assert_eq!(rest.brightness, 70);
    assert_eq!(rest.hue, 45555);
    assert_eq!(rest.saturation, 200);
    assert_eq!(rest.x_milli, 800);
    assert_eq!(rest.y_milli, 800);
}
