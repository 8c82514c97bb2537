use hoops::aim::{Aim, Point};
use hoops::contact::{Capabilities, ContactEvent, Phase, TagSet};
use hoops::possession::{release, BallPossession, Release};

const HAND_A: u64 = 4;
const HAND_B: u64 = 6;
const BALL: u64 = 5;
const BODY: u64 = 2;

fn tags() -> TagSet {
    let hand = Capabilities { ground: false, dynamic: false, hand: true, ball: false };
    let mut t = TagSet::new();
    t.set(HAND_A, hand);
    t.set(HAND_B, hand);
    t.set(BALL, Capabilities { ground: false, dynamic: true, hand: false, ball: true });
    t.set(BODY, Capabilities { ground: false, dynamic: true, hand: false, ball: false });
    t
}

fn begin(a: u64, b: u64) -> ContactEvent {
    ContactEvent { a, b, phase: Phase::Begin }
}

#[test]
fn new_ball_is_free() {
    assert_eq!(BallPossession::new(), BallPossession::Free);
    assert_eq!(BallPossession::new().holder(), None);
}

#[test]
fn grab_gated_by_action() {
    let t = tags();
    let mut state = BallPossession::new();
    state.contact_step(&vec![begin(HAND_A, BALL)], &t, false);
    assert_eq!(state, BallPossession::Free);
    state.contact_step(&vec![begin(HAND_A, BALL)], &t, true);
    assert_eq!(state, BallPossession::Held { user: HAND_A });
    assert_eq!(state.holder(), Some(HAND_A));
}

#[test]
fn first_grab_wins() {
    let t = tags();
    let mut state = BallPossession::new();
    state.contact_step(&vec![begin(BALL, HAND_B), begin(HAND_A, BALL)], &t, true);
    assert_eq!(state, BallPossession::Held { user: HAND_B });
    state.grab(HAND_A, true);
    assert_eq!(state, BallPossession::Held { user: HAND_B });
}

#[test]
fn other_contacts_do_not_grab() {
    let t = tags();
    let mut state = BallPossession::new();
    let events = vec![
        begin(BODY, BALL),
        ContactEvent { a: HAND_A, b: BALL, phase: Phase::End },
        begin(HAND_A, BODY),
    ];
    state.contact_step(&events, &t, true);
    assert_eq!(state, BallPossession::Free);
}

#[test]
fn release_when_free_does_nothing() {
    let r = release(BallPossession::Free, Point { x: 0, y: 0 }, Some(Point { x: 400, y: 200 }));
    assert_eq!(r, Release { possession: BallPossession::Free, shot: false, aim: None });
}

#[test]
fn release_shoots_held_ball() {
    let held = BallPossession::Held { user: HAND_A };
    let r = release(held, Point { x: -100, y: 0 }, Some(Point { x: 400, y: 200 }));
    assert_eq!(
        r,
        Release { possession: BallPossession::Free, shot: true, aim: Some(Aim { dx: 500, dy: 200 }) }
    );
}

#[test]
fn failed_shot_still_frees_ball() {
    let held = BallPossession::Held { user: HAND_A };
    let r = release(held, Point { x: 380, y: 0 }, Some(Point { x: 400, y: 200 }));
    assert_eq!(r, Release { possession: BallPossession::Free, shot: true, aim: None });
    let r2 = release(held, Point { x: 380, y: 0 }, None);
    assert_eq!(r2, Release { possession: BallPossession::Free, shot: true, aim: None });
    let again = release(r.possession, Point { x: 380, y: 0 }, Some(Point { x: 400, y: 200 }));
    assert_eq!(again, Release { possession: BallPossession::Free, shot: false, aim: None });
}
