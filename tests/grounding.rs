use hoops::contact::{Capabilities, ContactEvent, Phase, TagSet};
use hoops::grounding::{
    ground_contact_begin, ground_step, leave_ground, righting_impulse, try_jump, GroundingState,
    Mover, Tilt, TORQUE_ON_COLLIDE,
};
use hoops::Side;

const GROUND: u64 = 1;

fn tags() -> TagSet {
    let mut t = TagSet::new();
    t.set(GROUND, Capabilities { ground: true, dynamic: false, hand: false, ball: false });
    for id in 10..14u64 {
        t.set(id, Capabilities { ground: false, dynamic: true, hand: false, ball: false });
    }
    t
}

fn begin(a: u64, b: u64) -> ContactEvent {
    ContactEvent { a, b, phase: Phase::Begin }
}

fn mover(id: u64, side: Side, tilt: Tilt, state: GroundingState) -> Mover {
    Mover { id, side, tilt, state }
}

#[test]
fn righting_direction_follows_tilt_then_side() {
    assert_eq!(righting_impulse(Side::LEFT, Tilt::Level), -30_000_000);
    assert_eq!(righting_impulse(Side::RIGHT, Tilt::Level), 30_000_000);
    assert_eq!(righting_impulse(Side::LEFT, Tilt::Positive), TORQUE_ON_COLLIDE);
    assert_eq!(righting_impulse(Side::RIGHT, Tilt::Negative), -TORQUE_ON_COLLIDE);
}

#[test]
fn airborne_body_lands_with_one_impulse() {
    let r = ground_contact_begin(GroundingState::Airborne, Side::RIGHT, Tilt::Negative);
    assert_eq!(r, (GroundingState::OnGround, Some(-30_000_000)));
}

#[test]
fn second_ground_contact_is_ignored() {
    let (s1, i1) = ground_contact_begin(GroundingState::Airborne, Side::LEFT, Tilt::Level);
    assert_eq!(i1, Some(-30_000_000));
    let (s2, i2) = ground_contact_begin(s1, Side::LEFT, Tilt::Level);
    assert_eq!(s2, GroundingState::OnGround);
    assert_eq!(i2, None);
}

#[test]
fn leaving_ground_always_airborne() {
    assert_eq!(leave_ground(GroundingState::OnGround), GroundingState::Airborne);
    assert_eq!(leave_ground(GroundingState::Airborne), GroundingState::Airborne);
}

#[test]
fn jump_needs_press_ground_and_upright() {
    assert_eq!(try_jump(GroundingState::OnGround, true, true), (GroundingState::Airborne, true));
    assert_eq!(try_jump(GroundingState::OnGround, false, true), (GroundingState::OnGround, false));
    assert_eq!(try_jump(GroundingState::OnGround, true, false), (GroundingState::OnGround, false));
    assert_eq!(try_jump(GroundingState::Airborne, true, true), (GroundingState::Airborne, false));
}

#[test]
fn batch_lands_touched_bodies_only() {
    let t = tags();
    let mut movers = vec![
        mover(10, Side::LEFT, Tilt::Level, GroundingState::Airborne),
        mover(11, Side::RIGHT, Tilt::Positive, GroundingState::Airborne),
        mover(12, Side::RIGHT, Tilt::Level, GroundingState::OnGround),
        mover(13, Side::LEFT, Tilt::Negative, GroundingState::Airborne),
    ];
    // body 11 touches the ground twice, body 12 is already down, body 13 only
    // touches another body, and an ended contact does not count
    let events = vec![
        begin(11, GROUND),
        begin(GROUND, 11),
        begin(GROUND, 12),
        begin(13, 10),
        ContactEvent { a: GROUND, b: 10, phase: Phase::End },
    ];
    let impulses = ground_step(&mut movers, &events, &t);
    assert_eq!(impulses, vec![None, Some(30_000_000), None, None]);
    let states: Vec<GroundingState> = movers.iter().map(|m| m.state).collect();
    assert_eq!(
        states,
        vec![
            GroundingState::Airborne,
            GroundingState::OnGround,
            GroundingState::OnGround,
            GroundingState::Airborne
        ]
    );
}

#[test]
fn repeated_batch_gives_no_second_impulse() {
    let t = tags();
    let mut movers = vec![mover(10, Side::LEFT, Tilt::Level, GroundingState::Airborne)];
    let events = vec![begin(GROUND, 10), begin(10, GROUND)];
    assert_eq!(ground_step(&mut movers, &events, &t), vec![Some(-30_000_000)]);
    let after_first = movers.clone();
    assert_eq!(ground_step(&mut movers, &events, &t), vec![None]);
    assert_eq!(movers, after_first);
}

#[test]
fn empty_batch_changes_nothing() {
    let t = tags();
    let mut movers = vec![mover(10, Side::LEFT, Tilt::Level, GroundingState::Airborne)];
    let before = movers.clone();
    assert_eq!(ground_step(&mut movers, &Vec::new(), &t), vec![None]);
    assert_eq!(movers, before);
}
