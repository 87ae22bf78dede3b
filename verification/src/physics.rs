//! The integer part of player physics: which way the controls push, and when a jump starts.
use vstd::prelude::*;

verus! {

/// Ticks before a held jump key jumps again.
pub const AUTO_JUMP_COOLDOWN_TICKS: u32 = 10;

/// The movement controls held during a tick.
#[derive(Clone, Copy, Debug, PartialEq, Eq, Structural)]
pub struct PlayerInput {
    pub forward: bool,
    pub backward: bool,
    pub left: bool,
    pub right: bool,
    pub jump: bool,
    pub sneak: bool,
    pub sprint: bool,
}

pub open spec fn flag(b: bool) -> int {
    if b {
        1
    } else {
        0
    }
}

/// Which way the controls push: forwards (1), backwards (-1) or neither, and right (1), left
/// (-1) or neither. Opposite keys cancel.
pub fn movement_directions(input: &PlayerInput) -> (r: (i8, i8))
    ensures
        r.0 == flag(input.forward) - flag(input.backward),
        r.1 == flag(input.right) - flag(input.left),
{
    let f: i8 = if input.forward {
        1
    } else {
        0
    };
    let b: i8 = if input.backward {
        1
    } else {
        0
    };
    let r: i8 = if input.right {
        1
    } else {
        0
    };
    let l: i8 = if input.left {
        1
    } else {
        0
    };
    (f - b, r - l)
}

/// The jump bookkeeping of a player.
#[derive(Clone, Copy, Debug, PartialEq, Eq, Structural)]
pub struct JumpState {
    pub on_ground: bool,
    pub jump_queued: bool,
    pub jump_ticks: u32,
}

/// One tick of jumping: while the jump key is held (or a jump is queued) the cooldown counts
/// down, and a jump starts on the ground once it is over, restarting the cooldown; letting go
/// clears the cooldown. A queued jump is used up either way. Returns whether a jump starts.
pub fn jump_tick(state: &mut JumpState, jump_held: bool) -> (jumps: bool)
    ensures
        final(state).jump_queued == false,
        final(state).on_ground == old(state).on_ground,
        ({
            let wants = jump_held || old(state).jump_queued;
            let counted = if old(state).jump_ticks > 0 {
                old(state).jump_ticks - 1
            } else {
                0
            };
            &&& jumps == (wants && old(state).on_ground && counted == 0)
            &&& final(state).jump_ticks == if !wants {
                0
            } else if jumps {
                AUTO_JUMP_COOLDOWN_TICKS as int
            } else {
                counted
            }
        }),
{
    let mut jumps = false;
    if jump_held || state.jump_queued {
        if state.jump_ticks > 0 {
            state.jump_ticks = state.jump_ticks - 1;
        }
        if state.on_ground && state.jump_ticks == 0 {
            state.jump_ticks = AUTO_JUMP_COOLDOWN_TICKS;
            jumps = true;
        }
    } else {
        state.jump_ticks = 0;
    }
    state.jump_queued = false;
    jumps
}

} // verus!
