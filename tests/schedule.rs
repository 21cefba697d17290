use xpbd_chain::schedule::{tick_schedule, Pass, NUM_SUB_STEPS};

#[test]
fn paused_tick_does_nothing() {
    assert!(tick_schedule(true, 3, 2, NUM_SUB_STEPS).is_empty());
}

#[test]
fn one_substep_orders_integrate_solve_rebuild() {
    let r = tick_schedule(false, 2, 1, 1);
    assert_eq!(
        r,
        vec![
            Pass::ReadySleep(0),
            Pass::ReadySleep(1),
            Pass::Step(0),
            Pass::Step(1),
            Pass::Solve(0),
            Pass::UpdateVel(0),
            Pass::UpdateVel(1),
        ]
    );
}

#[test]
fn eight_substeps_repeat_the_same_block() {
    let r = tick_schedule(false, 2, 3, NUM_SUB_STEPS);
    assert_eq!(NUM_SUB_STEPS, 8);
    assert_eq!(r.len(), 2 + 8 * (2 * 2 + 3));
    let block = &r[2..9];
    for t in 0..8 {
        assert_eq!(&r[2 + 7 * t..9 + 7 * t], block);
    }
    assert_eq!(
        block,
        &[
            Pass::Step(0),
            Pass::Step(1),
            Pass::Solve(0),
            Pass::Solve(1),
            Pass::Solve(2),
            Pass::UpdateVel(0),
            Pass::UpdateVel(1),
        ]
    );
}

#[test]
fn single_free_box_without_joints() {
    let r = tick_schedule(false, 1, 0, 8);
    assert_eq!(r.len(), 1 + 8 * 2);
    assert_eq!(r[0], Pass::ReadySleep(0));
    for t in 0..8 {
        assert_eq!(r[1 + 2 * t], Pass::Step(0));
        assert_eq!(r[2 + 2 * t], Pass::UpdateVel(0));
    }
}

#[test]
fn no_substeps_leaves_only_sleep_checks() {
    assert_eq!(tick_schedule(false, 2, 4, 0), vec![Pass::ReadySleep(0), Pass::ReadySleep(1)]);
}

#[test]
fn empty_world_tick_is_empty() {
    assert!(tick_schedule(false, 0, 0, 8).is_empty());
}
