//! Turning an unordered pair of bodies into a semantic contact kind.
use vstd::prelude::*;
use std::collections::HashMap;

verus! {

broadcast use vstd::std_specs::hash::group_hash_axioms;

/// Opaque identifier of a simulated body, as handed out by the physics backend.
pub type BodyId = u64;

/// What a body is able to take part in.
#[derive(Clone, Copy, Debug, PartialEq, Eq, Structural)]
pub struct Capabilities {
    /// A fixed surface that bodies can stand on.
    pub ground: bool,
    /// A body moved by the simulation.
    pub dynamic: bool,
    /// A hand sensor able to hold the ball.
    pub hand: bool,
    /// The ball.
    pub ball: bool,
}

impl Capabilities {
    pub open spec fn spec_none() -> Capabilities {
        Capabilities { ground: false, dynamic: false, hand: false, ball: false }
    }

    /// A body that has no capability at all.
    pub fn none() -> (r: Capabilities)
        ensures
            r == Capabilities::spec_none(),
    {
        Capabilities { ground: false, dynamic: false, hand: false, ball: false }
    }
}

/// Phase of a contact notification.
#[derive(Clone, Copy, Debug, PartialEq, Eq, Structural)]
pub enum Phase {
    Begin,
    End,
}

/// One notification from the physics backend that two bodies started or
/// stopped touching. The pair is unordered.
#[derive(Clone, Copy, Debug, PartialEq, Eq, Structural)]
pub struct ContactEvent {
    pub a: BodyId,
    pub b: BodyId,
    pub phase: Phase,
}

/// Semantic kind of a contact between two bodies.
#[derive(Clone, Copy, Debug, PartialEq, Eq, Structural)]
pub enum ContactKind {
    /// A ground surface touches a dynamic body.
    GroundBody { ground: BodyId, body: BodyId },
    /// A hand sensor touches the ball.
    HandBall { hand: BodyId, ball: BodyId },
    /// Two dynamic bodies touch; `first` is the smaller identifier.
    BodyBody { first: BodyId, second: BodyId },
    /// No known pairing.
    Unrecognized,
}

/// The capabilities of every tagged body. A body that is not tagged has none.
pub struct TagSet {
    tags: HashMap<BodyId, Capabilities>,
}

impl View for TagSet {
    type V = Map<BodyId, Capabilities>;

    closed spec fn view(&self) -> Map<BodyId, Capabilities> {
        self.tags@
    }
}

/// Capabilities of `id` under `tags`; none when it is not tagged.
pub open spec fn caps_of(tags: Map<BodyId, Capabilities>, id: BodyId) -> Capabilities {
    if tags.contains_key(id) {
        tags[id]
    } else {
        Capabilities::spec_none()
    }
}

/// The pairing rules, checked in order, each in both directions, for a pair
/// given with `lo <= hi`.
pub open spec fn kind_of_ordered(
    lo: BodyId,
    hi: BodyId,
    cl: Capabilities,
    ch: Capabilities,
) -> ContactKind {
    if cl.ground && ch.dynamic {
        ContactKind::GroundBody { ground: lo, body: hi }
    } else if ch.ground && cl.dynamic {
        ContactKind::GroundBody { ground: hi, body: lo }
    } else if cl.hand && ch.ball {
        ContactKind::HandBall { hand: lo, ball: hi }
    } else if ch.hand && cl.ball {
        ContactKind::HandBall { hand: hi, ball: lo }
    } else if cl.dynamic && ch.dynamic {
        ContactKind::BodyBody { first: lo, second: hi }
    } else {
        ContactKind::Unrecognized
    }
}

/// The kind of a contact between `a` and `b`: the pair is put in order of
/// identifiers first, so the result never depends on the order of the arguments.
pub open spec fn contact_kind(a: BodyId, b: BodyId, tags: Map<BodyId, Capabilities>) -> ContactKind {
    if a <= b {
        kind_of_ordered(a, b, caps_of(tags, a), caps_of(tags, b))
    } else {
        kind_of_ordered(b, a, caps_of(tags, b), caps_of(tags, a))
    }
}

/// Swapping the two bodies of a contact never changes its kind.
pub proof fn lemma_classify_symmetric(a: BodyId, b: BodyId, tags: Map<BodyId, Capabilities>)
    ensures
        contact_kind(a, b, tags) == contact_kind(b, a, tags),
{
}

impl TagSet {
    /// An empty tag set.
    pub fn new() -> (r: TagSet)
        ensures
            r@ == Map::<BodyId, Capabilities>::empty(),
    {
        TagSet { tags: HashMap::new() }
    }

    /// Gives `id` the capabilities `caps`, replacing any it had.
    pub fn set(&mut self, id: BodyId, caps: Capabilities)
        ensures
            final(self)@ == old(self)@.insert(id, caps),
    {
        self.tags.insert(id, caps);
    }

    /// The capabilities of `id`.
    pub fn caps(&self, id: BodyId) -> (r: Capabilities)
        ensures
            r == caps_of(self@, id),
    {
        match self.tags.get(&id) {
            Some(c) => *c,
            None => Capabilities::none(),
        }
    }
}

fn classify_ordered(lo: BodyId, hi: BodyId, cl: Capabilities, ch: Capabilities) -> (r: ContactKind)
    ensures
        r == kind_of_ordered(lo, hi, cl, ch),
{
    if cl.ground && ch.dynamic {
        ContactKind::GroundBody { ground: lo, body: hi }
    } else if ch.ground && cl.dynamic {
        ContactKind::GroundBody { ground: hi, body: lo }
    } else if cl.hand && ch.ball {
        ContactKind::HandBall { hand: lo, ball: hi }
    } else if ch.hand && cl.ball {
        ContactKind::HandBall { hand: hi, ball: lo }
    } else if cl.dynamic && ch.dynamic {
        ContactKind::BodyBody { first: lo, second: hi }
    } else {
        ContactKind::Unrecognized
    }
}

/// Classifies a contact between `a` and `b` under `tags`.
pub fn classify(a: BodyId, b: BodyId, tags: &TagSet) -> (r: ContactKind)
    ensures
        r == contact_kind(a, b, tags@),
{
    if a <= b {
        classify_ordered(a, b, tags.caps(a), tags.caps(b))
    } else {
        classify_ordered(b, a, tags.caps(b), tags.caps(a))
    }
}

} // verus!
