//! What a client has been told about where an entity is, and what to tell it next.
//!
//! A moving entity is not sent outright every tick. What goes out is the change since last time,
//! as three sixteen-bit numbers in the wire's steps of a block. That only works if both ends agree
//! on where the entity was, so the change is worked out between positions already rounded to the
//! wire's steps: the client, adding up what it is told, is then holding exactly what the server
//! believes it holds.
use crate::entity_data::Change;
use vstd::prelude::*;

verus! {

/// How many steps of a block the wire carries.
pub const STEPS_PER_BLOCK: i64 = 4096;

/// The largest change one packet can carry, in those steps.
pub const LARGEST_CHANGE: i64 = 32767;

/// How many rounds without an outright position before one is sent anyway.
pub const ROUNDS_BEFORE_A_TELEPORT: u32 = 400;

/// A position in the wire's steps.
pub type Steps = (i64, i64, i64);

/// What a client has been told about an entity.
#[derive(Debug, Clone, Copy, PartialEq, Eq)]
pub struct Followed {
    /// Where the client believes the entity is, in the wire's steps. Only moved when a position
    /// actually went out.
    pub base: Steps,
    pub last_yaw: u8,
    pub last_pitch: u8,
    pub was_on_ground: bool,
    /// Rounds since a position was sent outright rather than as a change.
    pub since_teleport: u32,
}

/// Whether a change along one axis fits in a packet.
pub open spec fn fits(step: int) -> bool {
    -(LARGEST_CHANGE + 1) <= step <= LARGEST_CHANGE
}

/// What to send this round, and what the client then holds, for an entity now at `at` (in the
/// wire's steps), which `moved` says has moved far enough to be worth a packet, facing `yaw` and
/// `pitch` (as angle bytes), standing on the ground or not.
///
/// An outright position goes out when a change is too large to carry, when it has been too long
/// since the last one, or when the entity has just landed or left the ground. Otherwise the
/// position and the facing go out as changes, each only when it changed.
pub open spec fn after_round(
    t: Followed,
    at: Steps,
    moved: bool,
    yaw: u8,
    pitch: u8,
    on_ground: bool,
) -> (Followed, Change) {
    let rounds = t.since_teleport + 1;
    let (dx, dy, dz) = (at.0 - t.base.0, at.1 - t.base.1, at.2 - t.base.2);
    let turned = yaw != t.last_yaw || pitch != t.last_pitch;
    if !fits(dx) || !fits(dy) || !fits(dz) || rounds > ROUNDS_BEFORE_A_TELEPORT || on_ground
        != t.was_on_ground {
        (
            Followed {
                base: at,
                last_yaw: yaw,
                last_pitch: pitch,
                was_on_ground: on_ground,
                since_teleport: 0,
            },
            Change::Teleported,
        )
    } else {
        let (x, y, z) = (dx as i16, dy as i16, dz as i16);
        let counted = Followed { since_teleport: rounds as u32, ..t };
        if !moved && !turned {
            (counted, Change::Nothing)
        } else if moved && !turned {
            (Followed { base: at, ..counted }, Change::Moved { x, y, z })
        } else if !moved {
            (Followed { last_yaw: yaw, last_pitch: pitch, ..counted }, Change::Turned { yaw, pitch })
        } else {
            (
                Followed { base: at, last_yaw: yaw, last_pitch: pitch, ..counted },
                Change::MovedAndTurned { x, y, z, yaw, pitch },
            )
        }
    }
}

/// Where a client holding `client` believes the entity is once told `change` about an entity at
/// `at`: an outright position replaces what it held, a change of position is added to it.
pub open spec fn believed(client: (int, int, int), change: Change, at: Steps) -> (int, int, int) {
    match change {
        Change::Teleported => (at.0 as int, at.1 as int, at.2 as int),
        Change::Moved { x, y, z } => (client.0 + x, client.1 + y, client.2 + z),
        Change::MovedAndTurned { x, y, z, .. } => (client.0 + x, client.1 + y, client.2 + z),
        _ => client,
    }
}

impl Followed {
    /// Whether the count of rounds is within what ever goes unsent.
    pub open spec fn wf(&self) -> bool {
        self.since_teleport <= ROUNDS_BEFORE_A_TELEPORT
    }

    /// A client that has just been told where an entity is.
    pub fn starting_at(at: Steps, yaw: u8, pitch: u8, on_ground: bool) -> (r: Self)
        ensures
            r == (Followed {
                base: at,
                last_yaw: yaw,
                last_pitch: pitch,
                was_on_ground: on_ground,
                since_teleport: 0,
            }),
            r.wf(),
    {
        Followed { base: at, last_yaw: yaw, last_pitch: pitch, was_on_ground: on_ground, since_teleport: 0 }
    }

    /// Where the client believes the entity is, in the wire's steps.
    pub fn believed_position(&self) -> (r: Steps)
        ensures
            r == self.base,
    {
        self.base
    }

    /// What to send this round, and what to remember having sent. The two are worked out together
    /// because they have to agree: a round that sends only a turn does not move the position the
    /// next change is measured from.
    pub fn change(&mut self, at: Steps, moved: bool, yaw: u8, pitch: u8, on_ground: bool) -> (r:
        Change)
        requires
            old(self).wf(),
            i64::MIN <= at.0 - old(self).base.0 <= i64::MAX,
            i64::MIN <= at.1 - old(self).base.1 <= i64::MAX,
            i64::MIN <= at.2 - old(self).base.2 <= i64::MAX,
        ensures
            final(self).wf(),
            (*final(self), r) == after_round(*old(self), at, moved, yaw, pitch, on_ground),
    {
        let rounds = self.since_teleport + 1;
        let turned = yaw != self.last_yaw || pitch != self.last_pitch;
        let dx = at.0 - self.base.0;
        let dy = at.1 - self.base.1;
        let dz = at.2 - self.base.2;
        let too_far = dx < -(LARGEST_CHANGE + 1) || dx > LARGEST_CHANGE || dy < -(LARGEST_CHANGE + 1)
            || dy > LARGEST_CHANGE || dz < -(LARGEST_CHANGE + 1) || dz > LARGEST_CHANGE;
        if too_far || rounds > ROUNDS_BEFORE_A_TELEPORT || on_ground != self.was_on_ground {
            self.base = at;
            self.last_yaw = yaw;
            self.last_pitch = pitch;
            self.was_on_ground = on_ground;
            self.since_teleport = 0;
            return Change::Teleported;
        }
        self.since_teleport = rounds;
        let (x, y, z) = (dx as i16, dy as i16, dz as i16);
        if !moved && !turned {
            Change::Nothing
        } else if moved && !turned {
            self.base = at;
            Change::Moved { x, y, z }
        } else if !moved {
            self.last_yaw = yaw;
            self.last_pitch = pitch;
            Change::Turned { yaw, pitch }
        } else {
            self.base = at;
            self.last_yaw = yaw;
            self.last_pitch = pitch;
            Change::MovedAndTurned { x, y, z, yaw, pitch }
        }
    }
}

/// A client that adds up what it is told holds exactly what the server believes it holds, round
/// after round: nothing drifts.
pub proof fn lemma_no_drift(
    t: Followed,
    client: (int, int, int),
    at: Steps,
    moved: bool,
    yaw: u8,
    pitch: u8,
    on_ground: bool,
)
    requires
        client == (t.base.0 as int, t.base.1 as int, t.base.2 as int),
    ensures
        ({
            let after = after_round(t, at, moved, yaw, pitch, on_ground);
            believed(client, after.1, at) == (
                after.0.base.0 as int,
                after.0.base.1 as int,
                after.0.base.2 as int,
            )
        }),
{
    let (dx, dy, dz) = (at.0 - t.base.0, at.1 - t.base.1, at.2 - t.base.2);
    if fits(dx) && fits(dy) && fits(dz) {
        assert(dx as i16 == dx);
        assert(dy as i16 == dy);
        assert(dz as i16 == dz);
    }
}

/// Whenever the position goes out, as a change or outright, the client is told exactly where the
/// entity is; a round that does not send it leaves what the client holds as it was.
pub proof fn lemma_sent_means_there(t: Followed, at: Steps, moved: bool, yaw: u8, pitch: u8, on_ground: bool)
    ensures
        ({
            let (after, change) = after_round(t, at, moved, yaw, pitch, on_ground);
            &&& (change is Moved || change is MovedAndTurned || change is Teleported) ==> after.base
                == at
            &&& (change is Nothing || change is Turned) ==> after.base == t.base
        }),
{
}

/// An entity that never moves is still placed outright now and then: a well-formed tracker that
/// has gone the longest it may without one sends one this round.
pub proof fn lemma_placed_now_and_then(t: Followed, at: Steps, moved: bool, yaw: u8, pitch: u8, on_ground: bool)
    requires
        t.wf(),
        t.since_teleport == ROUNDS_BEFORE_A_TELEPORT,
    ensures
        after_round(t, at, moved, yaw, pitch, on_ground).1 == Change::Teleported,
{
}

/// A round that sends no outright position counts one more round since the last.
pub proof fn lemma_rounds_counted(t: Followed, at: Steps, moved: bool, yaw: u8, pitch: u8, on_ground: bool)
    requires
        t.wf(),
    ensures
        ({
            let (after, change) = after_round(t, at, moved, yaw, pitch, on_ground);
            &&& after.wf()
            &&& change is Teleported ==> after.since_teleport == 0
            &&& !(change is Teleported) ==> after.since_teleport == t.since_teleport + 1
        }),
{
}

} // verus!
