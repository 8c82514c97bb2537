//! Whether each movable body rests on the ground, and the righting impulse
//! given to a body when it lands.
use vstd::prelude::*;
use crate::Side;
use crate::contact::{BodyId, Capabilities, ContactEvent, ContactKind, Phase, TagSet, contact_kind, classify};

verus! {

/// Sign of a body's rotation about the axis perpendicular to the play plane.
#[derive(Clone, Copy, Debug, PartialEq, Eq, Structural)]
pub enum Tilt {
    Level,
    Positive,
    Negative,
}

/// Whether a body rests on the ground.
#[derive(Clone, Copy, Debug, PartialEq, Eq, Structural)]
pub enum GroundingState {
    Airborne,
    OnGround,
}

/// Magnitude of the torque impulse that rights a body when it lands.
pub const TORQUE_ON_COLLIDE: i64 = 30_000_000;

/// Direction of the righting impulse: the side's default when the body is
/// level (`LEFT` turns negative, `RIGHT` positive), else the sign of its tilt.
pub open spec fn righting_direction(side: Side, tilt: Tilt) -> int {
    match tilt {
        Tilt::Level => match side {
            Side::LEFT => -1,
            Side::RIGHT => 1,
        },
        Tilt::Positive => 1,
        Tilt::Negative => -1,
    }
}

/// The righting torque impulse for a landing body.
pub open spec fn righting_torque(side: Side, tilt: Tilt) -> int {
    TORQUE_ON_COLLIDE * righting_direction(side, tilt)
}

/// A ground contact begins for a body: a body already on the ground ignores
/// it; an airborne one lands and receives the righting impulse.
pub open spec fn spec_ground_contact_begin(state: GroundingState, side: Side, tilt: Tilt) -> (
    GroundingState,
    Option<i64>,
) {
    match state {
        GroundingState::OnGround => (GroundingState::OnGround, None),
        GroundingState::Airborne => (
            GroundingState::OnGround,
            Some(righting_torque(side, tilt) as i64),
        ),
    }
}

/// The righting torque impulse for a landing body.
pub fn righting_impulse(side: Side, tilt: Tilt) -> (r: i64)
    ensures
        r == righting_torque(side, tilt),
{
    match tilt {
        Tilt::Level => match side {
            Side::LEFT => -TORQUE_ON_COLLIDE,
            Side::RIGHT => TORQUE_ON_COLLIDE,
        },
        Tilt::Positive => TORQUE_ON_COLLIDE,
        Tilt::Negative => -TORQUE_ON_COLLIDE,
    }
}

/// Transition on a ground contact that begins: returns the new state and the
/// torque impulse to apply, if any.
pub fn ground_contact_begin(state: GroundingState, side: Side, tilt: Tilt) -> (r: (
    GroundingState,
    Option<i64>,
))
    ensures
        r == spec_ground_contact_begin(state, side, tilt),
{
    match state {
        GroundingState::OnGround => (GroundingState::OnGround, None),
        GroundingState::Airborne => (GroundingState::OnGround, Some(righting_impulse(side, tilt))),
    }
}

/// A ground contact that begins for a body already on the ground changes
/// nothing: a second contact gives no second impulse and leaves the state.
pub proof fn lemma_ground_contact_idempotent(state: GroundingState, side: Side, tilt: Tilt)
    ensures
        spec_ground_contact_begin(spec_ground_contact_begin(state, side, tilt).0, side, tilt) == (
        spec_ground_contact_begin(state, side, tilt).0,
        None::<i64>,
        ),
        spec_ground_contact_begin(GroundingState::OnGround, side, tilt) == (
        GroundingState::OnGround,
        None::<i64>,
        ),
{
}

/// Leaving the ground: the body is airborne, whatever it was.
pub fn leave_ground(state: GroundingState) -> (r: GroundingState)
    ensures
        r == GroundingState::Airborne,
{
    GroundingState::Airborne
}

/// The jump action: a body jumps only when the jump was pressed, it rests on
/// the ground and it stands upright; it then leaves the ground. Returns the
/// new state and whether the body jumps.
pub fn try_jump(state: GroundingState, pressed: bool, upright: bool) -> (r: (GroundingState, bool))
    ensures
        r.1 == (pressed && state == GroundingState::OnGround && upright),
        r.0 == (if r.1 {
            GroundingState::Airborne
        } else {
            state
        }),
{
    if pressed && state == GroundingState::OnGround && upright {
        (leave_ground(state), true)
    } else {
        (state, false)
    }
}

/// A movable body as seen during one simulation step.
#[derive(Clone, Copy, Debug, PartialEq, Eq, Structural)]
pub struct Mover {
    pub id: BodyId,
    pub side: Side,
    pub tilt: Tilt,
    pub state: GroundingState,
}

/// `e` is a ground contact that begins for body `id`.
pub open spec fn lands_on_ground(e: ContactEvent, id: BodyId, tags: Map<BodyId, Capabilities>) -> bool {
    e.phase == Phase::Begin && match contact_kind(e.a, e.b, tags) {
        ContactKind::GroundBody { body, .. } => body == id,
        _ => false,
    }
}

/// Some event of the batch is a ground contact that begins for body `id`.
pub open spec fn touched_ground(
    id: BodyId,
    events: Seq<ContactEvent>,
    tags: Map<BodyId, Capabilities>,
) -> bool {
    exists|k: int| 0 <= k < events.len() && lands_on_ground(#[trigger] events[k], id, tags)
}

/// A body after a batch of contact events: it lands if any event of the batch
/// is a ground contact for it.
pub open spec fn mover_after(
    m: Mover,
    events: Seq<ContactEvent>,
    tags: Map<BodyId, Capabilities>,
) -> Mover {
    if touched_ground(m.id, events, tags) {
        Mover { state: spec_ground_contact_begin(m.state, m.side, m.tilt).0, ..m }
    } else {
        m
    }
}

/// The impulse a body receives from a batch of contact events: at most one,
/// and only when it was airborne and lands.
pub open spec fn impulse_after(
    m: Mover,
    events: Seq<ContactEvent>,
    tags: Map<BodyId, Capabilities>,
) -> Option<i64> {
    if touched_ground(m.id, events, tags) {
        spec_ground_contact_begin(m.state, m.side, m.tilt).1
    } else {
        None
    }
}

/// Whether some event of the batch is a ground contact that begins for `id`.
pub fn touches_ground(id: BodyId, events: &Vec<ContactEvent>, tags: &TagSet) -> (r: bool)
    ensures
        r == touched_ground(id, events@, tags@),
{
    let mut k: usize = 0;
    while k < events.len()
        invariant
            k <= events.len(),
            forall|j: int| 0 <= j < k ==> !lands_on_ground(#[trigger] events@[j], id, tags@),
        decreases events.len() - k,
    {
        let e = events[k];
        if e.phase == Phase::Begin {
            match classify(e.a, e.b, tags) {
                ContactKind::GroundBody { body, .. } => {
                    if body == id {
                        assert(lands_on_ground(events@[k as int], id, tags@));
                        return true;
                    }
                },
                _ => {},
            }
        }
        k += 1;
    }
    false
}

/// Consumes one step's batch of contact events for every movable body: each
/// body that the batch puts on the ground lands, and the result holds, per
/// body, the righting impulse it receives.
pub fn ground_step(movers: &mut Vec<Mover>, events: &Vec<ContactEvent>, tags: &TagSet) -> (r: Vec<
    Option<i64>,
>)
    ensures
        final(movers)@.len() == old(movers)@.len(),
        r@.len() == old(movers)@.len(),
        forall|i: int|
            0 <= i < old(movers)@.len() ==> #[trigger] final(movers)@[i] == mover_after(
                old(movers)@[i],
                events@,
                tags@,
            ),
        forall|i: int|
            0 <= i < old(movers)@.len() ==> #[trigger] r@[i] == impulse_after(
                old(movers)@[i],
                events@,
                tags@,
            ),
{
    let ghost before = movers@;
    let mut impulses: Vec<Option<i64>> = Vec::new();
    let mut i: usize = 0;
    while i < movers.len()
        invariant
            i <= movers@.len(),
            movers@.len() == before.len(),
            impulses@.len() == i,
            forall|j: int| 0 <= j < i ==> #[trigger] movers@[j] == mover_after(before[j], events@, tags@),
            forall|j: int| i <= j < movers@.len() ==> #[trigger] movers@[j] == before[j],
            forall|j: int| 0 <= j < i ==> #[trigger] impulses@[j] == impulse_after(before[j], events@, tags@),
        decreases movers@.len() - i,
    {
        let m = movers[i];
        if touches_ground(m.id, events, tags) {
            let (state, impulse) = ground_contact_begin(m.state, m.side, m.tilt);
            movers.set(i, Mover { state, ..m });
            impulses.push(impulse);
        } else {
            impulses.push(None);
        }
        i += 1;
    }
    impulses
}

/// Once a batch has put a body on the ground, no later batch gives it a
/// second impulse or changes its state.
pub proof fn lemma_landing_idempotent(
    m: Mover,
    first: Seq<ContactEvent>,
    later: Seq<ContactEvent>,
    tags: Map<BodyId, Capabilities>,
)
    requires
        touched_ground(m.id, first, tags),
    ensures
        mover_after(mover_after(m, first, tags), later, tags) == mover_after(m, first, tags),
        impulse_after(mover_after(m, first, tags), later, tags) == None::<i64>,
{
}

} // verus!
