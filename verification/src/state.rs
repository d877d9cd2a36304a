//! The abstract machine model.
//!
//! `MachineState` is the mathematical view of a machine: sequences for
//! memory, registers, stack, keys and screen.  `step_spec` is the full
//! transition function of the interpreter — one call of the executable
//! `step` is proved equal to one application of `step_spec`.

use vstd::prelude::*;
use crate::decode::{spec_decode, Instruction};

verus! {

/// Why a step or a load was refused.  Every error leaves the machine
/// exactly as it was.
#[derive(Clone, Copy, Debug, PartialEq, Eq, Structural)]
pub enum Chip8Error {
    /// The program does not fit between 0x200 and the end of memory.
    RomTooLarge,
    /// The fetched word matches no instruction; carries the word and
    /// the program counter it was fetched from.
    InvalidOpcode(u16, u16),
    /// A call would push a seventeenth return address.
    StackOverflow,
    /// A return was executed with an empty call stack.
    StackUnderflow,
    /// An address reached past the 4096-byte memory image.
    OutOfBoundsFetch,
}

/// What a successful step did.
#[derive(Clone, Copy, Debug, PartialEq, Eq, Structural)]
pub enum StepOutcome {
    /// An instruction was executed.
    Advanced,
    /// The machine is paused on the blocking key wait; nothing changed,
    /// or the wait was just issued.
    WaitingForKey,
}

/// The abstract state of one machine.
#[verifier::ext_equal]
pub struct MachineState {
    /// The 4096-byte memory image.
    pub memory: Seq<u8>,
    /// The sixteen general-purpose registers V0..VF.
    pub regs: Seq<u8>,
    /// The 16-bit address register I.
    pub addr: u16,
    /// The program counter.
    pub pc: u16,
    /// The live call stack entries, most recent last; at most 16.
    pub stack: Seq<u16>,
    /// The delay timer.
    pub delay: u8,
    /// The sound timer.
    pub sound: u8,
    /// The sixteen key latches.
    pub keys: Seq<bool>,
    /// Whether the machine is paused on the blocking key wait.
    pub waiting: bool,
    /// The register that receives the next pressed key while waiting.
    pub wait_reg: u8,
    /// The 64x32 framebuffer, row-major: pixel (x, y) is entry y*64+x.
    pub screen: Seq<bool>,
    /// The state of the pseudo-random byte generator.
    pub rng: u16,
}

/// Well-formedness: the sequences have their fixed lengths, the stack
/// holds at most sixteen entries, the wait target is a register index,
/// and the program counter never strays far past the memory image
/// (jump-with-offset can place it at most at 0xFFF + 0xFF).
pub open spec fn state_wf(s: MachineState) -> bool {
    &&& s.memory.len() == 4096
    &&& s.regs.len() == 16
    &&& s.keys.len() == 16
    &&& s.screen.len() == 2048
    &&& s.stack.len() <= 16
    &&& s.wait_reg < 16
    &&& s.pc < 0x1100
    &&& s.waiting ==> s.pc <= 0xFFE
    &&& forall|j: int| 0 <= j < s.stack.len() ==> s.stack[j] <= 0x1000
}

/// The machine as `new` creates it: font resident at the base of
/// memory, everything else zeroed, program counter at 0x200.
pub open spec fn initial_state() -> MachineState {
    MachineState {
        memory: Seq::new(4096, |j: int| if j < 80 { crate::constant::spec_font_byte(j) } else { 0u8 }),
        regs: Seq::new(16, |j: int| 0u8),
        addr: 0,
        pc: 0x200,
        stack: Seq::empty(),
        delay: 0,
        sound: 0,
        keys: Seq::new(16, |j: int| false),
        waiting: false,
        wait_reg: 0,
        screen: Seq::new(2048, |j: int| false),
        rng: RNG_SEED,
    }
}

/// Seed of the pseudo-random byte generator at reset.
pub const RNG_SEED: u16 = 0x2A6E;

/// The memory image after a program is written at 0x200; everything
/// else is untouched.
pub open spec fn load_spec(s: MachineState, rom: Seq<u8>) -> MachineState {
    MachineState {
        memory: Seq::new(
            4096,
            |j: int| if 0x200 <= j < 0x200 + rom.len() { rom[j - 0x200] } else { s.memory[j] },
        ),
        ..s
    }
}

/// The program counter advanced by `k` bytes, wrapping at the 16-bit
/// boundary (which well-formed states never reach).
pub open spec fn pc_plus(pc: u16, k: int) -> u16 {
    if pc + k < 0x10000 {
        (pc + k) as u16
    } else {
        (pc + k - 0x10000) as u16
    }
}

/// Register `x` of state `s`.
pub open spec fn reg(s: MachineState, x: u8) -> u8 {
    s.regs[x as int]
}

/// State `s` with register `x` set to `v`.
pub open spec fn with_reg(s: MachineState, x: u8, v: u8) -> MachineState {
    MachineState { regs: s.regs.update(x as int, v), ..s }
}

/// State `s` with the program counter advanced past the current
/// instruction: by 4 when `skip` holds, by 2 otherwise.
pub open spec fn advanced(s: MachineState, skip: bool) -> MachineState {
    MachineState { pc: pc_plus(s.pc, if skip { 4 } else { 2 }), ..s }
}

/// Byte addition wrapping modulo 256.
pub open spec fn wrap_add(a: u8, b: u8) -> u8 {
    ((a + b) % 256) as u8
}

/// Byte subtraction wrapping modulo 256.
pub open spec fn wrap_sub(a: u8, b: u8) -> u8 {
    (((a - b) % 256 + 256) % 256) as u8
}

/// The next state of the pseudo-random generator: a linear
/// congruential step modulo 2^16.
pub open spec fn next_rng(r: u16) -> u16 {
    ((r * 25173 + 13849) % 0x10000) as u16
}

/// The byte a generator state yields: its high byte.
pub open spec fn rng_byte(r: u16) -> u8 {
    (r / 256) as u8
}

/// The big-endian 16-bit word at address `addr`.
pub open spec fn word_at(s: MachineState, addr: u16) -> u16 {
    ((s.memory[addr as int] as u16) << 8u16) | (s.memory[addr as int + 1] as u16)
}

/// The big-endian 16-bit word at the program counter.
pub open spec fn spec_fetch(s: MachineState) -> u16 {
    word_at(s, s.pc)
}

/// The lowest-numbered pressed key at or above index `i`, if any.
pub open spec fn first_pressed_from(keys: Seq<bool>, i: int) -> Option<u8>
    decreases 16 - i,
{
    if i < 0 || i >= 16 {
        None
    } else if keys[i] {
        Some(i as u8)
    } else {
        first_pressed_from(keys, i + 1)
    }
}

/// The lowest-numbered pressed key, if any.
pub open spec fn first_pressed(keys: Seq<bool>) -> Option<u8> {
    first_pressed_from(keys, 0)
}

/// Whether sprite row `r`, column `c` of an N-byte sprite drawn at
/// origin (x0, y0) lands on pixel `p` of the row-major framebuffer,
/// with both coordinates wrapped around the grid edges, and that
/// sprite bit is set.  `mem` is the memory image and `i` the address
/// register the sprite rows are read from.
pub open spec fn sprite_bit(
    mem: Seq<u8>,
    i: u16,
    x0: u8,
    y0: u8,
    n: u8,
    p: int,
) -> bool {
    let px = p % 64;
    let py = p / 64;
    let c = (px + 64 - (x0 as int) % 64) % 64;
    let r = (py + 32 - (y0 as int) % 32) % 32;
    c < 8 && r < n && (mem[i + r] >> ((7 - c) as u8)) & 1 == 1
}

/// The framebuffer after a sprite draw: each covered pixel is XORed
/// with its sprite bit.
pub open spec fn draw_screen(
    screen: Seq<bool>,
    mem: Seq<u8>,
    i: u16,
    x0: u8,
    y0: u8,
    n: u8,
) -> Seq<bool> {
    Seq::new(2048, |p: int| screen[p] != sprite_bit(mem, i, x0, y0, n, p))
}

/// Whether a sprite draw clears at least one previously set pixel.
pub open spec fn draw_collision(
    screen: Seq<bool>,
    mem: Seq<u8>,
    i: u16,
    x0: u8,
    y0: u8,
    n: u8,
) -> bool {
    exists|p: int| 0 <= p < 2048 && screen[p] && sprite_bit(mem, i, x0, y0, n, p)
}

/// The effect of one decoded instruction on state `s`: the step
/// outcome or error, and the state after.  Every error leaves the
/// state unchanged.
pub open spec fn exec_spec(s: MachineState, inst: Instruction) -> (Result<
    StepOutcome,
    Chip8Error,
>, MachineState) {
    match inst {
        Instruction::Cls => (
            Ok(StepOutcome::Advanced),
            advanced(MachineState { screen: Seq::new(2048, |p: int| false), ..s }, false),
        ),
        Instruction::Ret => if s.stack.len() == 0 {
            (Err(Chip8Error::StackUnderflow), s)
        } else {
            (
                Ok(StepOutcome::Advanced),
                MachineState { pc: s.stack.last(), stack: s.stack.drop_last(), ..s },
            )
        },
        Instruction::Jp(nnn) => (Ok(StepOutcome::Advanced), MachineState { pc: nnn, ..s }),
        Instruction::Call(nnn) => if s.stack.len() >= 16 {
            (Err(Chip8Error::StackOverflow), s)
        } else {
            (
                Ok(StepOutcome::Advanced),
                MachineState { stack: s.stack.push(pc_plus(s.pc, 2)), pc: nnn, ..s },
            )
        },
        Instruction::SeVxByte(x, nn) => (Ok(StepOutcome::Advanced), advanced(s, reg(s, x) == nn)),
        Instruction::SneVxByte(x, nn) => (Ok(StepOutcome::Advanced), advanced(s, reg(s, x) != nn)),
        Instruction::SeVxVy(x, y) => (
            Ok(StepOutcome::Advanced),
            advanced(s, reg(s, x) == reg(s, y)),
        ),
        Instruction::LdVxByte(x, nn) => (Ok(StepOutcome::Advanced), advanced(with_reg(s, x, nn), false)),
        Instruction::AddVxByte(x, nn) => (
            Ok(StepOutcome::Advanced),
            advanced(with_reg(s, x, wrap_add(reg(s, x), nn)), false),
        ),
        Instruction::LdVxVy(x, y) => (
            Ok(StepOutcome::Advanced),
            advanced(with_reg(s, x, reg(s, y)), false),
        ),
        Instruction::OrVxVy(x, y) => (
            Ok(StepOutcome::Advanced),
            advanced(with_reg(s, x, reg(s, x) | reg(s, y)), false),
        ),
        Instruction::AndVxVy(x, y) => (
            Ok(StepOutcome::Advanced),
            advanced(with_reg(s, x, reg(s, x) & reg(s, y)), false),
        ),
        Instruction::XorVxVy(x, y) => (
            Ok(StepOutcome::Advanced),
            advanced(with_reg(s, x, reg(s, x) ^ reg(s, y)), false),
        ),
        Instruction::AddVxVy(x, y) => (
            Ok(StepOutcome::Advanced),
            advanced(
                with_reg(
                    with_reg(s, x, wrap_add(reg(s, x), reg(s, y))),
                    15,
                    if reg(s, x) + reg(s, y) > 255 { 1u8 } else { 0u8 },
                ),
                false,
            ),
        ),
        Instruction::SubVxVy(x, y) => (
            Ok(StepOutcome::Advanced),
            advanced(
                with_reg(
                    with_reg(s, x, wrap_sub(reg(s, x), reg(s, y))),
                    15,
                    if reg(s, x) >= reg(s, y) { 1u8 } else { 0u8 },
                ),
                false,
            ),
        ),
        Instruction::ShrVx(x) => (
            Ok(StepOutcome::Advanced),
            advanced(
                with_reg(with_reg(s, x, (reg(s, x) / 2) as u8), 15, (reg(s, x) % 2) as u8),
                false,
            ),
        ),
        Instruction::SubnVxVy(x, y) => (
            Ok(StepOutcome::Advanced),
            advanced(
                with_reg(
                    with_reg(s, x, wrap_sub(reg(s, y), reg(s, x))),
                    15,
                    if reg(s, y) >= reg(s, x) { 1u8 } else { 0u8 },
                ),
                false,
            ),
        ),
        Instruction::ShlVx(x) => (
            Ok(StepOutcome::Advanced),
            advanced(
                with_reg(
                    with_reg(s, x, ((reg(s, x) * 2) % 256) as u8),
                    15,
                    (reg(s, x) / 128) as u8,
                ),
                false,
            ),
        ),
        Instruction::SneVxVy(x, y) => (
            Ok(StepOutcome::Advanced),
            advanced(s, reg(s, x) != reg(s, y)),
        ),
        Instruction::LdIAddr(nnn) => (
            Ok(StepOutcome::Advanced),
            advanced(MachineState { addr: nnn, ..s }, false),
        ),
        Instruction::JpV0Addr(nnn) => (
            Ok(StepOutcome::Advanced),
            MachineState { pc: (nnn + reg(s, 0)) as u16, ..s },
        ),
        Instruction::RndVxByte(x, nn) => (
            Ok(StepOutcome::Advanced),
            advanced(
                with_reg(
                    MachineState { rng: next_rng(s.rng), ..s },
                    x,
                    rng_byte(next_rng(s.rng)) & nn,
                ),
                false,
            ),
        ),
        Instruction::DrwVxVyN(x, y, n) => if s.addr + n > 4096 {
            (Err(Chip8Error::OutOfBoundsFetch), s)
        } else {
            (
                Ok(StepOutcome::Advanced),
                advanced(
                    MachineState {
                        screen: draw_screen(s.screen, s.memory, s.addr, reg(s, x), reg(s, y), n),
                        regs: s.regs.update(
                            15,
                            if draw_collision(s.screen, s.memory, s.addr, reg(s, x), reg(s, y), n) {
                                1u8
                            } else {
                                0u8
                            },
                        ),
                        ..s
                    },
                    false,
                ),
            )
        },
        Instruction::SkpVx(x) => (
            Ok(StepOutcome::Advanced),
            advanced(s, s.keys[reg(s, x) as int % 16]),
        ),
        Instruction::SknpVx(x) => (
            Ok(StepOutcome::Advanced),
            advanced(s, !s.keys[reg(s, x) as int % 16]),
        ),
        Instruction::LdVxDt(x) => (
            Ok(StepOutcome::Advanced),
            advanced(with_reg(s, x, s.delay), false),
        ),
        Instruction::LdVxK(x) => (
            Ok(StepOutcome::WaitingForKey),
            MachineState { waiting: true, wait_reg: x, ..s },
        ),
        Instruction::LdDtVx(x) => (
            Ok(StepOutcome::Advanced),
            advanced(MachineState { delay: reg(s, x), ..s }, false),
        ),
        Instruction::LdStVx(x) => (
            Ok(StepOutcome::Advanced),
            advanced(MachineState { sound: reg(s, x), ..s }, false),
        ),
        Instruction::AddIVx(x) => (
            Ok(StepOutcome::Advanced),
            advanced(MachineState { addr: ((s.addr + reg(s, x)) % 0x10000) as u16, ..s }, false),
        ),
        Instruction::LdFVx(x) => (
            Ok(StepOutcome::Advanced),
            advanced(MachineState { addr: ((reg(s, x) % 16) * 5) as u16, ..s }, false),
        ),
        Instruction::LdBVx(x) => if s.addr + 2 >= 4096 {
            (Err(Chip8Error::OutOfBoundsFetch), s)
        } else {
            (
                Ok(StepOutcome::Advanced),
                advanced(
                    MachineState {
                        memory: s.memory
                            .update(s.addr as int, (reg(s, x) / 100) as u8)
                            .update(s.addr as int + 1, ((reg(s, x) / 10) % 10) as u8)
                            .update(s.addr as int + 2, (reg(s, x) % 10) as u8),
                        ..s
                    },
                    false,
                ),
            )
        },
        Instruction::LdIVx(x) => if s.addr + x >= 4096 {
            (Err(Chip8Error::OutOfBoundsFetch), s)
        } else {
            (
                Ok(StepOutcome::Advanced),
                advanced(
                    MachineState {
                        memory: Seq::new(
                            4096,
                            |j: int| if s.addr <= j <= s.addr + x {
                                s.regs[j - s.addr]
                            } else {
                                s.memory[j]
                            },
                        ),
                        ..s
                    },
                    false,
                ),
            )
        },
        Instruction::LdVxI(x) => if s.addr + x >= 4096 {
            (Err(Chip8Error::OutOfBoundsFetch), s)
        } else {
            (
                Ok(StepOutcome::Advanced),
                advanced(
                    MachineState {
                        regs: Seq::new(
                            16,
                            |k: int| if k <= x { s.memory[s.addr + k] } else { s.regs[k] },
                        ),
                        ..s
                    },
                    false,
                ),
            )
        },
    }
}

/// One step of the machine.  A machine paused on the key wait re-checks
/// the latch: with no key pressed it reports the pause and changes
/// nothing; otherwise the lowest pressed key lands in the wait target
/// register and the program counter moves past the wait instruction.
/// A running machine fetches the word at the program counter (failing
/// when it reaches past memory), decodes it (failing on an unknown
/// pattern), and applies the instruction's effect.
pub open spec fn step_spec(s: MachineState) -> (Result<StepOutcome, Chip8Error>, MachineState) {
    if s.waiting {
        match first_pressed(s.keys) {
            Some(k) => (
                Ok(StepOutcome::Advanced),
                MachineState {
                    regs: s.regs.update(s.wait_reg as int, k),
                    waiting: false,
                    pc: pc_plus(s.pc, 2),
                    ..s
                },
            ),
            None => (Ok(StepOutcome::WaitingForKey), s),
        }
    } else if s.pc as int + 1 >= 4096 {
        (Err(Chip8Error::OutOfBoundsFetch), s)
    } else {
        let op = spec_fetch(s);
        match spec_decode(op) {
            None => (Err(Chip8Error::InvalidOpcode(op, s.pc)), s),
            Some(inst) => exec_spec(s, inst),
        }
    }
}

/// Both timers, decremented toward zero by one external tick.
pub open spec fn tick_spec(s: MachineState) -> MachineState {
    MachineState {
        delay: if s.delay > 0 { (s.delay - 1) as u8 } else { 0u8 },
        sound: if s.sound > 0 { (s.sound - 1) as u8 } else { 0u8 },
        ..s
    }
}

} // verus!
