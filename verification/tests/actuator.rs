use autolux::actuator::{Actuator, STEP};

#[test]
fn first_tick_jumps_straight_to_target() {
    let mut a = Actuator::new(2000);
    assert_eq!(a.current, None);
    assert_eq!(a.tick(None), Some(2000));
    assert_eq!(a.current, Some(2000));
}

#[test]
fn tick_moves_by_exactly_one_step_upward() {
    let mut a = Actuator::new(2000);
    a.tick(None);
    assert_eq!(a.tick(Some(3000)), Some(2000 + STEP));
    assert_eq!(a.current, Some(2000 + STEP));
}

#[test]
fn tick_moves_by_exactly_one_step_downward() {
    let mut a = Actuator::new(3000);
    a.tick(None);
    assert_eq!(a.tick(Some(1125)), Some(3000 - STEP));
    assert_eq!(a.current, Some(3000 - STEP));
}

#[test]
fn tick_is_idle_within_one_step_and_resumes_when_gap_grows() {
    let mut a = Actuator::new(2000);
    a.tick(None);
    // within one step of the target: no write, no movement
    assert_eq!(a.tick(Some(2005)), None);
    assert_eq!(a.current, Some(2000));
    assert_eq!(a.tick(None), None);
    // a farther target makes the ramp step again
    assert_eq!(a.tick(Some(2020)), Some(2010));
    assert_eq!(a.current, Some(2010));
}

#[test]
fn ramp_from_first_target_to_second() {
    // the first published target is applied as-is, and a later one is
    // approached in exact steps until the gap is below one step
    let mut a = Actuator::new(1125);
    assert_eq!(a.tick(None), Some(1125));
    let mut expected: u32 = 1125;
    let mut incoming: Option<u32> = Some(3000);
    loop {
        let applied = a.tick(incoming);
        incoming = None;
        match applied {
            Some(n) => {
                expected += STEP;
                assert_eq!(n, expected);
            }
            None => break,
        }
    }
    // converged: within one step of the target, holding position
    assert_eq!(a.current, Some(2995));
    assert_eq!(a.target, 3000);
    assert_eq!(a.tick(None), None);
    assert_eq!(a.current, Some(2995));
}

#[test]
fn restart_after_failed_write_reapplies_target_directly() {
    let mut a = Actuator::new(1125);
    assert_eq!(a.tick(None), Some(1125));
    let applied = a.tick(Some(3000));
    assert_eq!(applied, Some(1135));
    // the device write of 1135 fails: the session ends and, after the
    // cooldown, the supervisor starts a fresh one with nothing applied
    let mut restarted = Actuator::new(3000);
    assert_eq!(restarted.current, None);
    // the first tick of the new session jumps straight to the target
    assert_eq!(restarted.tick(None), Some(3000));
    assert_eq!(restarted.current, Some(3000));
}
