//! What a client is told about an entity: the bits of its flag bytes, which field of it is which,
//! and how a move is sent.
use vstd::prelude::*;

verus! {

/// A bit of the byte every entity carries to say what it is doing.
#[derive(Debug, Clone, Copy, PartialEq, Eq, Structural, Hash)]
pub enum EntityFlag {
    OnFire,
    Crouching,
    Sprinting,
    Swimming,
    Invisible,
    Glowing,
    FallFlying,
}

/// The bit of the shared flags byte a flag is.
pub open spec fn entity_flag_bit(flag: EntityFlag) -> u8 {
    match flag {
        EntityFlag::OnFire => 1,
        EntityFlag::Crouching => 2,
        EntityFlag::Sprinting => 8,
        EntityFlag::Swimming => 16,
        EntityFlag::Invisible => 32,
        EntityFlag::Glowing => 64,
        EntityFlag::FallFlying => 128,
    }
}

impl EntityFlag {
    /// The bit of the shared flags byte this flag is.
    pub fn mask(self) -> (r: u8)
        ensures
            r == entity_flag_bit(self),
    {
        match self {
            EntityFlag::OnFire => 1,
            EntityFlag::Crouching => 2,
            EntityFlag::Sprinting => 8,
            EntityFlag::Swimming => 16,
            EntityFlag::Invisible => 32,
            EntityFlag::Glowing => 64,
            EntityFlag::FallFlying => 128,
        }
    }
}

/// A bit of the byte every living entity carries beside it.
#[derive(Debug, Clone, Copy, PartialEq, Eq, Structural, Hash)]
pub enum LivingFlag {
    UsingItem,
    OffHand,
    SpinAttack,
}

/// The bit of the living flags byte a flag is.
pub open spec fn living_flag_bit(flag: LivingFlag) -> u8 {
    match flag {
        LivingFlag::UsingItem => 1,
        LivingFlag::OffHand => 2,
        LivingFlag::SpinAttack => 4,
    }
}

impl LivingFlag {
    /// The bit of the living flags byte this flag is.
    pub fn mask(self) -> (r: u8)
        ensures
            r == living_flag_bit(self),
    {
        match self {
            LivingFlag::UsingItem => 1,
            LivingFlag::OffHand => 2,
            LivingFlag::SpinAttack => 4,
        }
    }
}

/// Whether `bit` is set in `flags`.
pub fn has_bit(flags: u8, bit: u8) -> (r: bool)
    ensures
        r == (flags & bit != 0),
{
    flags & bit != 0
}

/// `flags` with `bit` set or cleared, and the other bits as they were.
pub fn with_bit(flags: u8, bit: u8, on: bool) -> (r: u8)
    ensures
        r == if on {
            flags | bit
        } else {
            flags & !bit
        },
{
    if on {
        flags | bit
    } else {
        flags & !bit
    }
}

/// One bit of a flags byte leaves the others alone: setting or clearing a flag's bit changes what
/// that flag reads as to what was asked, and what every other flag reads as not at all.
pub proof fn lemma_one_bit_alone(flags: u8, flag: EntityFlag, other: EntityFlag, on: bool)
    ensures
        (if on {
            flags | entity_flag_bit(flag)
        } else {
            flags & !entity_flag_bit(flag)
        }) & entity_flag_bit(flag) != 0 <==> on,
        other != flag ==> ((if on {
            flags | entity_flag_bit(flag)
        } else {
            flags & !entity_flag_bit(flag)
        }) & entity_flag_bit(other) != 0 <==> flags & entity_flag_bit(other) != 0),
{
    let b = entity_flag_bit(flag);
    let c = entity_flag_bit(other);
    assert(b == 1 || b == 2 || b == 8 || b == 16 || b == 32 || b == 64 || b == 128);
    assert(c == 1 || c == 2 || c == 8 || c == 16 || c == 32 || c == 64 || c == 128);
    assert(other != flag ==> b != c);
    assert(((flags | b) & b != 0) && ((flags & !b) & b == 0)) by (bit_vector)
        requires
            b == 1 || b == 2 || b == 8 || b == 16 || b == 32 || b == 64 || b == 128,
    ;
    assert(b != c ==> (((flags | b) & c != 0) <==> (flags & c != 0)) && (((flags & !b) & c != 0)
        <==> (flags & c != 0))) by (bit_vector)
        requires
            b == 1 || b == 2 || b == 8 || b == 16 || b == 32 || b == 64 || b == 128,
            c == 1 || c == 2 || c == 8 || c == 16 || c == 32 || c == 64 || c == 128,
    ;
}

/// One field of an entity, named rather than numbered, with the shape of value it holds as its
/// type.
///
/// The index a field sits at is fixed by the class that declared it, so a field of a given name is
/// in the same place on every entity type that inherits it.
pub struct Field<T> {
    index: u8,
    shape: core::marker::PhantomData<T>,
}

impl<T> Field<T> {
    /// Where this field sits.
    pub closed spec fn place(&self) -> u8 {
        self.index
    }

    /// The field at `index`, as the game numbers them.
    pub fn at(index: u8) -> (r: Self)
        ensures
            r.place() == index,
    {
        Field { index, shape: core::marker::PhantomData }
    }

    /// Where this field sits, in the server's own version's terms.
    pub fn index(&self) -> (r: u8)
        ensures
            r == self.place(),
    {
        self.index
    }
}

impl<T> Clone for Field<T> {
    fn clone(&self) -> (r: Self)
        ensures
            r.place() == self.place(),
    {
        Field { index: self.index, shape: core::marker::PhantomData }
    }
}

impl<T> Copy for Field<T> {

}

/// Marker for a baby entity: physics then uses the baby-scaled properties.
#[derive(Clone, Copy, Debug, Default)]
pub struct Baby;

/// What to send a client about where an entity is this round.
#[derive(Debug, Clone, Copy, PartialEq, Eq, Structural)]
pub enum Change {
    /// Nothing has moved or turned enough to be worth a packet.
    Nothing,
    /// How far it moved, in the steps the wire carries.
    Moved { x: i16, y: i16, z: i16 },
    Turned { yaw: u8, pitch: u8 },
    MovedAndTurned { x: i16, y: i16, z: i16, yaw: u8, pitch: u8 },
    /// Where it is, outright. Sent when the change is too large to carry, when it has been too long
    /// since the last one, or when it has just landed or left the ground.
    Teleported,
}

} // verus!
