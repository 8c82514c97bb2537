//! Who holds the ball, and what the release action does with it.
use vstd::prelude::*;
use crate::aim::{Aim, Point, aim, spec_aim};
use crate::contact::{BodyId, Capabilities, caps_of, ContactEvent, ContactKind, Phase, TagSet, classify, contact_kind};

verus! {

/// Possession of the ball: free, or held by one hand.
#[derive(Clone, Copy, Debug, PartialEq, Eq, Structural)]
pub enum BallPossession {
    Free,
    Held { user: BodyId },
}

/// A hand touches the ball while the grab action is held: a free ball is
/// taken by that hand; a held ball stays with its holder (the first grab wins).
pub open spec fn spec_grab(state: BallPossession, hand: BodyId, grab_held: bool) -> BallPossession {
    if grab_held && state is Free {
        BallPossession::Held { user: hand }
    } else {
        state
    }
}

/// The effect of one contact event on possession: only a hand-ball contact
/// that begins counts.
pub open spec fn spec_on_contact(
    state: BallPossession,
    e: ContactEvent,
    tags: Map<BodyId, Capabilities>,
    grab_held: bool,
) -> BallPossession {
    if e.phase == Phase::Begin {
        match contact_kind(e.a, e.b, tags) {
            ContactKind::HandBall { hand, .. } => spec_grab(state, hand, grab_held),
            _ => state,
        }
    } else {
        state
    }
}

/// Possession after a batch of contact events, taken in order.
pub open spec fn possession_after(
    state: BallPossession,
    events: Seq<ContactEvent>,
    tags: Map<BodyId, Capabilities>,
    grab_held: bool,
) -> BallPossession
    decreases events.len(),
{
    if events.len() == 0 {
        state
    } else {
        spec_on_contact(
            possession_after(state, events.drop_last(), tags, grab_held),
            events.last(),
            tags,
            grab_held,
        )
    }
}

impl BallPossession {
    /// Possession of a ball just put into play.
    pub fn new() -> (r: BallPossession)
        ensures
            r == BallPossession::Free,
    {
        BallPossession::Free
    }

    /// The body the ball is pinned to, if any: while held, the ball's position
    /// is set to its holder's at every step.
    pub fn holder(&self) -> (r: Option<BodyId>)
        ensures
            r == (match *self {
                BallPossession::Free => None,
                BallPossession::Held { user } => Some(user),
            }),
    {
        match *self {
            BallPossession::Free => None,
            BallPossession::Held { user } => Some(user),
        }
    }

    /// Transition on a hand-ball contact that begins.
    pub fn grab(&mut self, hand: BodyId, grab_held: bool)
        ensures
            *final(self) == spec_grab(*old(self), hand, grab_held),
    {
        if grab_held && *self == BallPossession::Free {
            *self = BallPossession::Held { user: hand };
        }
    }

    /// Consumes one step's batch of contact events, in order, with the grab
    /// action sampled for the step.
    pub fn contact_step(&mut self, events: &Vec<ContactEvent>, tags: &TagSet, grab_held: bool)
        ensures
            *final(self) == possession_after(*old(self), events@, tags@, grab_held),
    {
        let mut k: usize = 0;
        while k < events.len()
            invariant
                k <= events@.len(),
                *self == possession_after(*old(self), events@.take(k as int), tags@, grab_held),
            decreases events@.len() - k,
        {
            let e = events[k];
            assert(events@.take(k + 1).drop_last() == events@.take(k as int));
            if e.phase == Phase::Begin {
                match classify(e.a, e.b, tags) {
                    ContactKind::HandBall { hand, .. } => self.grab(hand, grab_held),
                    _ => {},
                }
            }
            k += 1;
        }
        assert(events@.take(events@.len() as int) == events@);
    }
}

/// Without the grab action, no batch of contacts changes possession.
pub proof fn lemma_grab_gated(state: BallPossession, events: Seq<ContactEvent>, tags: Map<BodyId, Capabilities>)
    ensures
        possession_after(state, events, tags, false) == state,
    decreases events.len(),
{
    if events.len() > 0 {
        lemma_grab_gated(state, events.drop_last(), tags);
    }
}

/// A held ball keeps its holder through any batch of contacts.
pub proof fn lemma_holder_kept(
    user: BodyId,
    events: Seq<ContactEvent>,
    tags: Map<BodyId, Capabilities>,
    grab_held: bool,
)
    ensures
        possession_after(BallPossession::Held { user }, events, tags, grab_held)
            == (BallPossession::Held { user }),
    decreases events.len(),
{
    if events.len() > 0 {
        lemma_holder_kept(user, events.drop_last(), tags, grab_held);
    }
}

/// The holder of the ball, when there is one, bears the hand capability.
pub open spec fn holder_is_hand(state: BallPossession, tags: Map<BodyId, Capabilities>) -> bool {
    match state {
        BallPossession::Free => true,
        BallPossession::Held { user } => caps_of(tags, user).hand,
    }
}

/// Contacts only ever hand the ball to a hand: if the holder bears the hand
/// capability before a batch, it does after it.
pub proof fn lemma_holder_is_hand(
    state: BallPossession,
    events: Seq<ContactEvent>,
    tags: Map<BodyId, Capabilities>,
    grab_held: bool,
)
    requires
        holder_is_hand(state, tags),
    ensures
        holder_is_hand(possession_after(state, events, tags, grab_held), tags),
    decreases events.len(),
{
    if events.len() > 0 {
        lemma_holder_is_hand(state, events.drop_last(), tags, grab_held);
    }
}

/// A contact between `a` and `b` that begins.
pub open spec fn begin(a: BodyId, b: BodyId) -> ContactEvent {
    ContactEvent { a, b, phase: Phase::Begin }
}

/// A free ball touched by a hand while the grab action is held goes to that
/// hand, and stays free when the action is not held.
pub proof fn lemma_grab_takes_free_ball(hand: BodyId, ball: BodyId, tags: Map<BodyId, Capabilities>)
    requires
        contact_kind(hand, ball, tags) == (ContactKind::HandBall { hand, ball }),
    ensures
        possession_after(BallPossession::Free, seq![begin(hand, ball)], tags, true) == (
        BallPossession::Held { user: hand }),
        possession_after(BallPossession::Free, seq![begin(hand, ball)], tags, false)
            == BallPossession::Free,
{
    let s = seq![begin(hand, ball)];
    assert(s.drop_last().len() == 0);
    assert(s.last() == begin(hand, ball));
    assert(possession_after(BallPossession::Free, s.drop_last(), tags, true) == BallPossession::Free);
    assert(possession_after(BallPossession::Free, s.drop_last(), tags, false) == BallPossession::Free);
}

/// What the release action leads to.
#[derive(Clone, Copy, Debug, PartialEq, Eq, Structural)]
pub struct Release {
    /// Possession after the action.
    pub possession: BallPossession,
    /// Whether a held ball was let go.
    pub shot: bool,
    /// Where the shot is aimed, when it was taken and has an aim.
    pub aim: Option<Aim>,
}

/// The release action: with no ball held nothing happens; a held ball is let
/// go and shot from `ball` at the goal `target`, whether or not the shot has
/// an aim (and also when there is no goal to shoot at).
pub open spec fn spec_release(state: BallPossession, ball: Point, target: Option<Point>) -> Release {
    match state {
        BallPossession::Free => Release { possession: BallPossession::Free, shot: false, aim: None },
        BallPossession::Held { .. } => Release {
            possession: BallPossession::Free,
            shot: true,
            aim: match target {
                Some(t) => spec_aim(ball, t),
                None => None,
            },
        },
    }
}

/// Performs the release action for a ball at `ball` aimed at the goal `target`.
pub fn release(state: BallPossession, ball: Point, target: Option<Point>) -> (r: Release)
    ensures
        r == spec_release(state, ball, target),
{
    match state {
        BallPossession::Free => Release { possession: BallPossession::Free, shot: false, aim: None },
        BallPossession::Held { .. } => {
            let a = match target {
                Some(t) => aim(ball, t),
                None => None,
            };
            Release { possession: BallPossession::Free, shot: true, aim: a }
        },
    }
}

/// Releasing a held ball always frees it, exactly once: whether or not the shot
/// has an aim, and a second release then does nothing.
pub proof fn lemma_shot_consumes_possession(
    user: BodyId,
    ball: Point,
    target: Option<Point>,
    later: Point,
)
    ensures
        spec_release(BallPossession::Held { user }, ball, target).possession == BallPossession::Free,
        spec_release(BallPossession::Held { user }, ball, target).shot,
        spec_release(spec_release(BallPossession::Held { user }, ball, target).possession, later, target)
            == (Release { possession: BallPossession::Free, shot: false, aim: None }),
{
}

} // verus!
