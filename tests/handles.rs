use xpbd_chain::handles::{find_body, resolve_joint, JointLookup};

#[test]
fn find_body_gives_position() {
    assert_eq!(find_body(&[10, 20, 30], 20), Some(1));
    assert_eq!(find_body(&[10, 20, 30], 40), None);
    assert_eq!(find_body(&[], 1), None);
}

#[test]
fn find_body_takes_last_of_repeated_handle() {
    assert_eq!(find_body(&[5, 7, 5], 5), Some(2));
}

#[test]
fn joint_with_both_bodies() {
    let r = resolve_joint(&[4, 9, 2], 2, Some(4));
    assert_eq!(r, JointLookup { body0: Some(2), body1: Some(0) });
}

#[test]
fn joint_anchored_to_world() {
    let r = resolve_joint(&[4, 9], 9, None);
    assert_eq!(r, JointLookup { body0: Some(1), body1: None });
}

#[test]
fn joint_with_removed_first_body() {
    let r = resolve_joint(&[4, 9], 3, Some(9));
    assert_eq!(r, JointLookup { body0: None, body1: Some(1) });
}

#[test]
fn joint_with_removed_second_body() {
    let r = resolve_joint(&[4, 9], 4, Some(8));
    assert_eq!(r, JointLookup { body0: Some(0), body1: None });
}

#[test]
fn joint_to_itself_has_no_second_body() {
    let r = resolve_joint(&[4, 9], 9, Some(9));
    assert_eq!(r, JointLookup { body0: Some(1), body1: None });
}
