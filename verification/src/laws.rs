//! Laws of the machine that relate several transitions.
//!
//! Single-transition guarantees (what clear-screen leaves untouched,
//! how conditional skips move the program counter, when a load is
//! rejected) are the `ensures` of the functions themselves; the proofs
//! here state the guarantees that span more than one transition.

use vstd::prelude::*;
use crate::decode::{lemma_decode_operands_ok, spec_decode, Instruction};
use crate::state::{draw_collision, exec_spec, first_pressed_from, reg, spec_fetch, sprite_bit,
    state_wf, step_spec, Chip8Error, MachineState, StepOutcome};

verus! {

/// Below `i` the keys have been scanned; with none pressed at or
/// above `i` either, no key is found at all.
proof fn lemma_no_key_found(keys: Seq<bool>, i: int)
    requires
        forall|k: int| i <= k < 16 ==> !keys[k],
    ensures
        first_pressed_from(keys, i) is None,
    decreases 16 - i,
{
    if 0 <= i < 16 {
        lemma_no_key_found(keys, i + 1);
    }
}

/// A machine paused on the key wait is a fixed point of `step` for as
/// long as no key is pressed: every step reports the pause and leaves
/// the whole state — the program counter in particular — unchanged.
pub proof fn lemma_key_wait_pauses(s: MachineState)
    requires
        s.waiting,
        forall|k: int| 0 <= k < 16 ==> !s.keys[k],
    ensures
        step_spec(s).0 == Ok::<StepOutcome, Chip8Error>(StepOutcome::WaitingForKey),
        step_spec(s).1 == s,
{
    lemma_no_key_found(s.keys, 0);
}

/// A `CALL` followed immediately by a `RET` is a round trip: both
/// steps succeed, the program counter comes back to the address right
/// after the call, and the stack returns to its prior contents.
pub proof fn lemma_call_then_ret(s: MachineState, nnn: u16)
    requires
        state_wf(s),
        !s.waiting,
        s.pc as int + 1 < 4096,
        spec_decode(spec_fetch(s)) == Some(Instruction::Call(nnn)),
        s.stack.len() < 16,
        step_spec(s).1.pc as int + 1 < 4096,
        spec_decode(spec_fetch(step_spec(s).1)) == Some(Instruction::Ret),
    ensures
        step_spec(s).0 == Ok::<StepOutcome, Chip8Error>(StepOutcome::Advanced),
        step_spec(step_spec(s).1).0 == Ok::<StepOutcome, Chip8Error>(StepOutcome::Advanced),
        step_spec(step_spec(s).1).1.pc == s.pc + 2,
        step_spec(step_spec(s).1).1.stack == s.stack,
{
    lemma_decode_operands_ok(spec_fetch(s));
    let s1 = step_spec(s).1;
    assert(s1.stack == s.stack.push((s.pc + 2) as u16));
    let s2 = step_spec(s1).1;
    assert(s2.stack =~= s.stack);
}

/// Sprite draws are XOR-compositing, so drawing the same sprite twice
/// at the same origin restores the framebuffer exactly.  On an
/// all-clear framebuffer the first draw can clear no set pixel, so it
/// reports no collision; and whenever the sprite covers at least one
/// pixel, the second, self-overlapping draw clears it back, so it
/// reports a collision.  The origin registers must not be VF, which
/// the draw itself overwrites with the collision flag.
pub proof fn lemma_draw_twice_restores(s: MachineState, x: u8, y: u8, n: u8)
    requires
        state_wf(s),
        x < 15,
        y < 15,
        n < 16,
        s.addr + n <= 4096,
    ensures
        exec_spec(
            exec_spec(s, Instruction::DrwVxVyN(x, y, n)).1,
            Instruction::DrwVxVyN(x, y, n),
        ).1.screen == s.screen,
        (forall|p: int| 0 <= p < 2048 ==> !s.screen[p]) ==> exec_spec(
            s,
            Instruction::DrwVxVyN(x, y, n),
        ).1.regs[15] == 0,
        (forall|p: int| 0 <= p < 2048 ==> !s.screen[p]) && (exists|p: int|
            0 <= p < 2048 && sprite_bit(s.memory, s.addr, reg(s, x), reg(s, y), n, p)) ==> exec_spec(
            exec_spec(s, Instruction::DrwVxVyN(x, y, n)).1,
            Instruction::DrwVxVyN(x, y, n),
        ).1.regs[15] == 1,
{
    let s1 = exec_spec(s, Instruction::DrwVxVyN(x, y, n)).1;
    assert(reg(s1, x) == reg(s, x));
    assert(reg(s1, y) == reg(s, y));
    let s2 = exec_spec(s1, Instruction::DrwVxVyN(x, y, n)).1;
    assert(s2.screen =~= s.screen);
    if forall|p: int| 0 <= p < 2048 ==> !s.screen[p] {
        if draw_collision(s.screen, s.memory, s.addr, reg(s, x), reg(s, y), n) {
            let p = choose|p: int|
                0 <= p < 2048 && s.screen[p] && sprite_bit(
                    s.memory,
                    s.addr,
                    reg(s, x),
                    reg(s, y),
                    n,
                    p,
                );
            assert(!s.screen[p]);
        }
        if exists|p: int| 0 <= p < 2048 && sprite_bit(s.memory, s.addr, reg(s, x), reg(s, y), n, p) {
            let p = choose|p: int|
                0 <= p < 2048 && sprite_bit(s.memory, s.addr, reg(s, x), reg(s, y), n, p);
            assert(s1.screen[p]);
            assert(draw_collision(s1.screen, s1.memory, s1.addr, reg(s1, x), reg(s1, y), n));
        }
    }
}

} // verus!
