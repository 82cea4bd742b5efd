//! What each block state is like to break, read out of the packed table the game's data is turned
//! into: five bytes a state, by state id, four of hardness and one of light with a flag on top.
use vstd::prelude::*;

verus! {

/// How many bytes each state takes in the packed table.
pub const PER_STATE: u64 = 5;

/// Which bit of a state's last byte says the right tool is needed.
pub const NEEDS_THE_RIGHT_TOOL: u8 = 0x80;

/// Where a state's flags and light sit in the table.
pub open spec fn flags_at(state: u32) -> int {
    state * PER_STATE + 4
}

/// Whether the right tool is needed for the state to drop anything. Dirt drops with a fist; stone
/// does not. A state the table does not cover needs none.
pub fn needs_the_right_tool(packed: &[u8], state: u32) -> (r: bool)
    ensures
        r == (flags_at(state) < packed@.len() && packed@[flags_at(state)] & NEEDS_THE_RIGHT_TOOL
            != 0),
{
    let at: u64 = state as u64 * PER_STATE + 4;
    if at < packed.len() as u64 {
        packed[at as usize] & NEEDS_THE_RIGHT_TOOL != 0
    } else {
        false
    }
}

/// How much light the state gives off, from nothing to fifteen. A state the table does not cover
/// gives none.
pub fn light(packed: &[u8], state: u32) -> (r: u8)
    ensures
        r == (if flags_at(state) < packed@.len() {
            packed@[flags_at(state)] & 0x0F
        } else {
            0
        }),
        r <= 15,
{
    let at: u64 = state as u64 * PER_STATE + 4;
    if at < packed.len() as u64 {
        let flags = packed[at as usize];
        assert(flags & 0x0F <= 15) by (bit_vector);
        flags & 0x0F
    } else {
        0
    }
}

} // verus!
