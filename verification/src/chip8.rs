//! The executable CHIP-8 machine.
//!
//! `Chip8` owns all machine state.  Its view is a
//! [`MachineState`](crate::state::MachineState), and every mutating
//! operation is proved equal to the corresponding spec transition:
//! one `step` call is one application of `step_spec`.

use vstd::prelude::*;
use crate::constant::{font_byte, spec_font_byte, CHIP8_MEMORY, FONT_BYTES, INSTRUCTION_LENGTH,
    MAX_ROM_SIZE, PROGRAM_START, SCREEN_PIXELS, STACK_SIZE};
use crate::decode::{decode, Instruction};
use crate::state::{draw_screen, exec_spec, first_pressed, first_pressed_from, initial_state,
    load_spec, reg, spec_fetch, sprite_bit, state_wf, step_spec, tick_spec, word_at, wrap_sub,
    Chip8Error, MachineState, StepOutcome, RNG_SEED};

verus! {

/// One CHIP-8 machine: 4096 bytes of memory with the font resident at
/// the base, sixteen byte registers, the address register I, the
/// program counter, a call stack of at most sixteen return addresses,
/// two timers, the sixteen key latches with the blocking-wait flag,
/// the 64x32 framebuffer, and the pseudo-random generator state.
pub struct Chip8 {
    screen: Vec<bool>,
    memory: Vec<u8>,
    data_register: Vec<u8>,
    address_register: u16,
    delay_timer: u8,
    sound_timer: u8,
    keyboard: Vec<bool>,
    keyboard_waiting: bool,
    keyboard_register: u8,
    stack: Vec<u16>,
    program_counter: u16,
    rng_state: u16,
}

impl View for Chip8 {
    type V = MachineState;

    closed spec fn view(&self) -> MachineState {
        MachineState {
            memory: self.memory@,
            regs: self.data_register@,
            addr: self.address_register,
            pc: self.program_counter,
            stack: self.stack@,
            delay: self.delay_timer,
            sound: self.sound_timer,
            keys: self.keyboard@,
            waiting: self.keyboard_waiting,
            wait_reg: self.keyboard_register,
            screen: self.screen@,
            rng: self.rng_state,
        }
    }
}

/// The instructions the machine executes, one method per opcode
/// pattern, each taking its already-decoded operands.  Errors
/// (stack overflow and underflow, out-of-range memory addresses) are
/// ruled out by `requires`; the dispatcher checks them first and
/// reports them without mutating anything.
pub trait Instructions {
    /// The abstract state of the machine.
    spec fn st(&self) -> MachineState;

    /// Well-formedness of the machine.
    spec fn inv(&self) -> bool;

    /// 00E0: clear every framebuffer pixel; registers, stack and
    /// timers are untouched; the program counter advances by 2.
    fn cls(&mut self)
        requires
            old(self).inv(),
            !old(self).st().waiting,
            old(self).st().pc <= 0xFFE,
        ensures
            final(self).inv(),
            final(self).st() == exec_spec(old(self).st(), Instruction::Cls).1;

    /// 00EE: pop the return address into the program counter.
    fn ret(&mut self)
        requires
            old(self).inv(),
            !old(self).st().waiting,
            old(self).st().stack.len() > 0,
        ensures
            final(self).inv(),
            final(self).st() == exec_spec(old(self).st(), Instruction::Ret).1;

    /// 1NNN: jump to NNN.
    fn jp(&mut self, nnn: u16)
        requires
            old(self).inv(),
            !old(self).st().waiting,
            nnn < 0x1000,
        ensures
            final(self).inv(),
            final(self).st() == exec_spec(old(self).st(), Instruction::Jp(nnn)).1;

    /// 2NNN: push the address after this instruction, then jump to NNN.
    fn call(&mut self, nnn: u16)
        requires
            old(self).inv(),
            !old(self).st().waiting,
            old(self).st().pc <= 0xFFE,
            old(self).st().stack.len() < 16,
            nnn < 0x1000,
        ensures
            final(self).inv(),
            final(self).st() == exec_spec(old(self).st(), Instruction::Call(nnn)).1;

    /// 3XNN: advance by 4 when VX == NN, by 2 otherwise.
    fn se_vx_byte(&mut self, x: u8, nn: u8)
        requires
            old(self).inv(),
            !old(self).st().waiting,
            old(self).st().pc <= 0xFFE,
            x < 16,
        ensures
            final(self).inv(),
            final(self).st() == exec_spec(old(self).st(), Instruction::SeVxByte(x, nn)).1;

    /// 4XNN: advance by 4 when VX != NN, by 2 otherwise.
    fn sne_vx_byte(&mut self, x: u8, nn: u8)
        requires
            old(self).inv(),
            !old(self).st().waiting,
            old(self).st().pc <= 0xFFE,
            x < 16,
        ensures
            final(self).inv(),
            final(self).st() == exec_spec(old(self).st(), Instruction::SneVxByte(x, nn)).1;

    /// 5XY0: advance by 4 when VX == VY, by 2 otherwise.
    fn se_vx_vy(&mut self, x: u8, y: u8)
        requires
            old(self).inv(),
            !old(self).st().waiting,
            old(self).st().pc <= 0xFFE,
            x < 16,
            y < 16,
        ensures
            final(self).inv(),
            final(self).st() == exec_spec(old(self).st(), Instruction::SeVxVy(x, y)).1;

    /// 6XNN: VX = NN.
    fn ld_vx_byte(&mut self, x: u8, nn: u8)
        requires
            old(self).inv(),
            !old(self).st().waiting,
            old(self).st().pc <= 0xFFE,
            x < 16,
        ensures
            final(self).inv(),
            final(self).st() == exec_spec(old(self).st(), Instruction::LdVxByte(x, nn)).1;

    /// 7XNN: VX = VX + NN wrapping modulo 256; no flag is touched.
    fn add_vx_byte(&mut self, x: u8, nn: u8)
        requires
            old(self).inv(),
            !old(self).st().waiting,
            old(self).st().pc <= 0xFFE,
            x < 16,
        ensures
            final(self).inv(),
            final(self).st() == exec_spec(old(self).st(), Instruction::AddVxByte(x, nn)).1;
}

impl Instructions for Chip8 {
    open spec fn st(&self) -> MachineState {
        self@
    }

    open spec fn inv(&self) -> bool {
        state_wf(self@)
    }

    fn cls(&mut self) {
        self.screen = vec![false; SCREEN_PIXELS];
        self.program_counter = self.program_counter + INSTRUCTION_LENGTH;
        proof {
            assert(self@.screen =~= Seq::new(2048, |p: int| false));
            assert(self@ =~= exec_spec(old(self)@, Instruction::Cls).1);
        }
    }

    fn ret(&mut self) {
        let target = self.stack[self.stack.len() - 1];
        self.stack.pop();
        self.program_counter = target;
        proof {
            assert(old(self)@.stack.drop_last() =~= self@.stack);
            assert(self@ =~= exec_spec(old(self)@, Instruction::Ret).1);
        }
    }

    fn jp(&mut self, nnn: u16) {
        self.program_counter = nnn;
        proof {
            assert(self@ =~= exec_spec(old(self)@, Instruction::Jp(nnn)).1);
        }
    }

    fn call(&mut self, nnn: u16) {
        self.stack.push(self.program_counter + INSTRUCTION_LENGTH);
        self.program_counter = nnn;
        proof {
            assert(self@ =~= exec_spec(old(self)@, Instruction::Call(nnn)).1);
        }
    }

    fn se_vx_byte(&mut self, x: u8, nn: u8) {
        let vx = self.data_register[x as usize];
        if vx == nn {
            self.program_counter = self.program_counter + 4;
        } else {
            self.program_counter = self.program_counter + 2;
        }
        proof {
            assert(self@ =~= exec_spec(old(self)@, Instruction::SeVxByte(x, nn)).1);
        }
    }

    fn sne_vx_byte(&mut self, x: u8, nn: u8) {
        let vx = self.data_register[x as usize];
        if vx != nn {
            self.program_counter = self.program_counter + 4;
        } else {
            self.program_counter = self.program_counter + 2;
        }
        proof {
            assert(self@ =~= exec_spec(old(self)@, Instruction::SneVxByte(x, nn)).1);
        }
    }

    fn se_vx_vy(&mut self, x: u8, y: u8) {
        let vx = self.data_register[x as usize];
        let vy = self.data_register[y as usize];
        if vx == vy {
            self.program_counter = self.program_counter + 4;
        } else {
            self.program_counter = self.program_counter + 2;
        }
        proof {
            assert(self@ =~= exec_spec(old(self)@, Instruction::SeVxVy(x, y)).1);
        }
    }

    fn ld_vx_byte(&mut self, x: u8, nn: u8) {
        self.data_register[x as usize] = nn;
        self.program_counter = self.program_counter + INSTRUCTION_LENGTH;
        proof {
            assert(self@ =~= exec_spec(old(self)@, Instruction::LdVxByte(x, nn)).1);
        }
    }

    fn add_vx_byte(&mut self, x: u8, nn: u8) {
        let vx = self.data_register[x as usize];
        let sum: u16 = vx as u16 + nn as u16;
        self.data_register[x as usize] = (sum % 256) as u8;
        self.program_counter = self.program_counter + INSTRUCTION_LENGTH;
        proof {
            assert(self@ =~= exec_spec(old(self)@, Instruction::AddVxByte(x, nn)).1);
        }
    }
}

impl Chip8 {
    /// 8XY0: VX = VY.
    fn ld_vx_vy(&mut self, x: u8, y: u8)
        requires
            old(self).wf(),
            !old(self)@.waiting,
            old(self)@.pc <= 0xFFE,
            x < 16,
            y < 16,
        ensures
            final(self).wf(),
            final(self)@ == exec_spec(old(self)@, Instruction::LdVxVy(x, y)).1,
    {
        let vy = self.data_register[y as usize];
        self.data_register[x as usize] = vy;
        self.program_counter = self.program_counter + 2;
        proof {
            assert(self@ =~= exec_spec(old(self)@, Instruction::LdVxVy(x, y)).1);
        }
    }

    /// 8XY1: VX = VX | VY.
    fn or_vx_vy(&mut self, x: u8, y: u8)
        requires
            old(self).wf(),
            !old(self)@.waiting,
            old(self)@.pc <= 0xFFE,
            x < 16,
            y < 16,
        ensures
            final(self).wf(),
            final(self)@ == exec_spec(old(self)@, Instruction::OrVxVy(x, y)).1,
    {
        let vx = self.data_register[x as usize];
        let vy = self.data_register[y as usize];
        self.data_register[x as usize] = vx | vy;
        self.program_counter = self.program_counter + 2;
        proof {
            assert(self@ =~= exec_spec(old(self)@, Instruction::OrVxVy(x, y)).1);
        }
    }

    /// 8XY2: VX = VX & VY.
    fn and_vx_vy(&mut self, x: u8, y: u8)
        requires
            old(self).wf(),
            !old(self)@.waiting,
            old(self)@.pc <= 0xFFE,
            x < 16,
            y < 16,
        ensures
            final(self).wf(),
            final(self)@ == exec_spec(old(self)@, Instruction::AndVxVy(x, y)).1,
    {
        let vx = self.data_register[x as usize];
        let vy = self.data_register[y as usize];
        self.data_register[x as usize] = vx & vy;
        self.program_counter = self.program_counter + 2;
        proof {
            assert(self@ =~= exec_spec(old(self)@, Instruction::AndVxVy(x, y)).1);
        }
    }

    /// 8XY3: VX = VX ^ VY.
    fn xor_vx_vy(&mut self, x: u8, y: u8)
        requires
            old(self).wf(),
            !old(self)@.waiting,
            old(self)@.pc <= 0xFFE,
            x < 16,
            y < 16,
        ensures
            final(self).wf(),
            final(self)@ == exec_spec(old(self)@, Instruction::XorVxVy(x, y)).1,
    {
        let vx = self.data_register[x as usize];
        let vy = self.data_register[y as usize];
        self.data_register[x as usize] = vx ^ vy;
        self.program_counter = self.program_counter + 2;
        proof {
            assert(self@ =~= exec_spec(old(self)@, Instruction::XorVxVy(x, y)).1);
        }
    }

    /// 8XY4: VX = VX + VY wrapping modulo 256; VF holds the carry.
    fn add_vx_vy(&mut self, x: u8, y: u8)
        requires
            old(self).wf(),
            !old(self)@.waiting,
            old(self)@.pc <= 0xFFE,
            x < 16,
            y < 16,
        ensures
            final(self).wf(),
            final(self)@ == exec_spec(old(self)@, Instruction::AddVxVy(x, y)).1,
    {
        let vx = self.data_register[x as usize];
        let vy = self.data_register[y as usize];
        let sum: u16 = vx as u16 + vy as u16;
        self.data_register[x as usize] = (sum % 256) as u8;
        self.data_register[15] = if sum > 255 {
            1
        } else {
            0
        };
        self.program_counter = self.program_counter + 2;
        proof {
            assert(self@ =~= exec_spec(old(self)@, Instruction::AddVxVy(x, y)).1);
        }
    }

    /// 8XY5: VX = VX - VY wrapping modulo 256; VF holds 1 when there
    /// was no borrow.
    fn sub_vx_vy(&mut self, x: u8, y: u8)
        requires
            old(self).wf(),
            !old(self)@.waiting,
            old(self)@.pc <= 0xFFE,
            x < 16,
            y < 16,
        ensures
            final(self).wf(),
            final(self)@ == exec_spec(old(self)@, Instruction::SubVxVy(x, y)).1,
    {
        let vx = self.data_register[x as usize];
        let vy = self.data_register[y as usize];
        let diff = Self::wrapping_byte_sub(vx, vy);
        self.data_register[x as usize] = diff;
        self.data_register[15] = if vx >= vy {
            1
        } else {
            0
        };
        self.program_counter = self.program_counter + 2;
        proof {
            assert(self@ =~= exec_spec(old(self)@, Instruction::SubVxVy(x, y)).1);
        }
    }

    /// Byte subtraction wrapping modulo 256.
    fn wrapping_byte_sub(a: u8, b: u8) -> (r: u8)
        ensures
            r == wrap_sub(a, b),
    {
        proof {
            if a >= b {
                vstd::arithmetic::div_mod::lemma_mod_add_multiples_vanish(a - b, 256);
                vstd::arithmetic::div_mod::lemma_small_mod((a - b) as nat, 256);
            } else {
                vstd::arithmetic::div_mod::lemma_small_mod((a - b + 256) as nat, 256);
            }
        }
        if a >= b {
            a - b
        } else {
            (256 + a as u16 - b as u16) as u8
        }
    }

    /// 8XY6: VF = the low bit of VX, then VX is halved (shifted right
    /// by one).
    fn shr_vx(&mut self, x: u8)
        requires
            old(self).wf(),
            !old(self)@.waiting,
            old(self)@.pc <= 0xFFE,
            x < 16,
        ensures
            final(self).wf(),
            final(self)@ == exec_spec(old(self)@, Instruction::ShrVx(x)).1,
    {
        let vx = self.data_register[x as usize];
        self.data_register[x as usize] = vx / 2;
        self.data_register[15] = vx % 2;
        self.program_counter = self.program_counter + 2;
        proof {
            assert(self@ =~= exec_spec(old(self)@, Instruction::ShrVx(x)).1);
        }
    }

    /// 8XY7: VX = VY - VX wrapping modulo 256; VF holds 1 when there
    /// was no borrow.
    fn subn_vx_vy(&mut self, x: u8, y: u8)
        requires
            old(self).wf(),
            !old(self)@.waiting,
            old(self)@.pc <= 0xFFE,
            x < 16,
            y < 16,
        ensures
            final(self).wf(),
            final(self)@ == exec_spec(old(self)@, Instruction::SubnVxVy(x, y)).1,
    {
        let vx = self.data_register[x as usize];
        let vy = self.data_register[y as usize];
        let diff = Self::wrapping_byte_sub(vy, vx);
        self.data_register[x as usize] = diff;
        self.data_register[15] = if vy >= vx {
            1
        } else {
            0
        };
        self.program_counter = self.program_counter + 2;
        proof {
            assert(self@ =~= exec_spec(old(self)@, Instruction::SubnVxVy(x, y)).1);
        }
    }

    /// 8XYE: VF = the high bit of VX, then VX is doubled (shifted left
    /// by one, wrapping).
    fn shl_vx(&mut self, x: u8)
        requires
            old(self).wf(),
            !old(self)@.waiting,
            old(self)@.pc <= 0xFFE,
            x < 16,
        ensures
            final(self).wf(),
            final(self)@ == exec_spec(old(self)@, Instruction::ShlVx(x)).1,
    {
        let vx = self.data_register[x as usize];
        let doubled: u16 = vx as u16 * 2;
        self.data_register[x as usize] = (doubled % 256) as u8;
        self.data_register[15] = vx / 128;
        self.program_counter = self.program_counter + 2;
        proof {
            assert(self@ =~= exec_spec(old(self)@, Instruction::ShlVx(x)).1);
        }
    }

    /// 9XY0: advance by 4 when VX != VY, by 2 otherwise.
    fn sne_vx_vy(&mut self, x: u8, y: u8)
        requires
            old(self).wf(),
            !old(self)@.waiting,
            old(self)@.pc <= 0xFFE,
            x < 16,
            y < 16,
        ensures
            final(self).wf(),
            final(self)@ == exec_spec(old(self)@, Instruction::SneVxVy(x, y)).1,
    {
        let vx = self.data_register[x as usize];
        let vy = self.data_register[y as usize];
        if vx != vy {
            self.program_counter = self.program_counter + 4;
        } else {
            self.program_counter = self.program_counter + 2;
        }
        proof {
            assert(self@ =~= exec_spec(old(self)@, Instruction::SneVxVy(x, y)).1);
        }
    }

    /// ANNN: I = NNN.
    fn ld_i_addr(&mut self, nnn: u16)
        requires
            old(self).wf(),
            !old(self)@.waiting,
            old(self)@.pc <= 0xFFE,
            nnn < 0x1000,
        ensures
            final(self).wf(),
            final(self)@ == exec_spec(old(self)@, Instruction::LdIAddr(nnn)).1,
    {
        self.address_register = nnn;
        self.program_counter = self.program_counter + 2;
        proof {
            assert(self@ =~= exec_spec(old(self)@, Instruction::LdIAddr(nnn)).1);
        }
    }

    /// BNNN: jump to NNN + V0.
    fn jp_v0_addr(&mut self, nnn: u16)
        requires
            old(self).wf(),
            !old(self)@.waiting,
            nnn < 0x1000,
        ensures
            final(self).wf(),
            final(self)@ == exec_spec(old(self)@, Instruction::JpV0Addr(nnn)).1,
    {
        let v0 = self.data_register[0];
        self.program_counter = nnn + v0 as u16;
        proof {
            assert(self@ =~= exec_spec(old(self)@, Instruction::JpV0Addr(nnn)).1);
        }
    }

    /// CXNN: VX = the next pseudo-random byte masked with NN.
    fn rnd_vx_byte(&mut self, x: u8, nn: u8)
        requires
            old(self).wf(),
            !old(self)@.waiting,
            old(self)@.pc <= 0xFFE,
            x < 16,
        ensures
            final(self).wf(),
            final(self)@ == exec_spec(old(self)@, Instruction::RndVxByte(x, nn)).1,
    {
        let next: u16 = ((self.rng_state as u32 * 25173 + 13849) % 0x10000) as u16;
        self.rng_state = next;
        let byte = (next / 256) as u8;
        self.data_register[x as usize] = byte & nn;
        self.program_counter = self.program_counter + 2;
        proof {
            assert(self@ =~= exec_spec(old(self)@, Instruction::RndVxByte(x, nn)).1);
        }
    }

    /// DXYN: draw the N-byte sprite at memory address I at origin
    /// (VX, VY), wrapping at the grid edges, XOR-compositing each bit;
    /// VF reports whether any set pixel was cleared.
    fn drw_vx_vy_n(&mut self, x: u8, y: u8, n: u8)
        requires
            old(self).wf(),
            !old(self)@.waiting,
            old(self)@.pc <= 0xFFE,
            x < 16,
            y < 16,
            n < 16,
            old(self)@.addr + n <= 4096,
        ensures
            final(self).wf(),
            final(self)@ == exec_spec(old(self)@, Instruction::DrwVxVyN(x, y, n)).1,
    {
        let x0 = self.data_register[x as usize];
        let y0 = self.data_register[y as usize];
        let x0m = x0 as usize % 64;
        let y0m = y0 as usize % 32;
        let base = self.address_register as usize;
        let mut collision = false;
        let mut p: usize = 0;
        while p < 2048
            invariant
                old(self).wf(),
                x < 16,
                y < 16,
                n < 16,
                old(self)@.addr + n <= 4096,
                p <= 2048,
                x0 == reg(old(self)@, x),
                y0 == reg(old(self)@, y),
                x0m == (x0 as int) % 64,
                y0m == (y0 as int) % 32,
                base == old(self)@.addr,
                self@.screen.len() == 2048,
                self@ == (MachineState { screen: self@.screen, ..old(self)@ }),
                forall|q: int|
                    0 <= q < p ==> self@.screen[q] == (old(self)@.screen[q] != sprite_bit(
                        old(self)@.memory,
                        old(self)@.addr,
                        x0,
                        y0,
                        n,
                        q,
                    )),
                forall|q: int| p <= q < 2048 ==> self@.screen[q] == old(self)@.screen[q],
                collision == exists|q: int|
                    0 <= q < p && old(self)@.screen[q] && sprite_bit(
                        old(self)@.memory,
                        old(self)@.addr,
                        x0,
                        y0,
                        n,
                        q,
                    ),
            decreases 2048 - p,
        {
            let px = p % 64;
            let py = p / 64;
            let c = (px + 64 - x0m) % 64;
            let r = (py + 32 - y0m) % 32;
            if c < 8 && r < n as usize {
                let row = self.memory[base + r];
                let bit = (row >> ((7 - c) as u8)) & 1 == 1;
                if bit {
                    let prev = self.screen[p];
                    if prev {
                        collision = true;
                    }
                    self.screen[p] = !prev;
                }
            }
            p = p + 1;
        }
        self.data_register[15] = if collision {
            1
        } else {
            0
        };
        self.program_counter = self.program_counter + 2;
        proof {
            assert(self@.screen =~= draw_screen(
                old(self)@.screen,
                old(self)@.memory,
                old(self)@.addr,
                x0,
                y0,
                n,
            ));
            assert(self@ =~= exec_spec(old(self)@, Instruction::DrwVxVyN(x, y, n)).1);
        }
    }

    /// EX9E: advance by 4 when the key named by the low nibble of VX
    /// is pressed, by 2 otherwise.
    fn skp_vx(&mut self, x: u8)
        requires
            old(self).wf(),
            !old(self)@.waiting,
            old(self)@.pc <= 0xFFE,
            x < 16,
        ensures
            final(self).wf(),
            final(self)@ == exec_spec(old(self)@, Instruction::SkpVx(x)).1,
    {
        let vx = self.data_register[x as usize];
        let pressed = self.keyboard[(vx % 16) as usize];
        if pressed {
            self.program_counter = self.program_counter + 4;
        } else {
            self.program_counter = self.program_counter + 2;
        }
        proof {
            assert(self@ =~= exec_spec(old(self)@, Instruction::SkpVx(x)).1);
        }
    }

    /// EXA1: advance by 4 when the key named by the low nibble of VX
    /// is not pressed, by 2 otherwise.
    fn sknp_vx(&mut self, x: u8)
        requires
            old(self).wf(),
            !old(self)@.waiting,
            old(self)@.pc <= 0xFFE,
            x < 16,
        ensures
            final(self).wf(),
            final(self)@ == exec_spec(old(self)@, Instruction::SknpVx(x)).1,
    {
        let vx = self.data_register[x as usize];
        let pressed = self.keyboard[(vx % 16) as usize];
        if !pressed {
            self.program_counter = self.program_counter + 4;
        } else {
            self.program_counter = self.program_counter + 2;
        }
        proof {
            assert(self@ =~= exec_spec(old(self)@, Instruction::SknpVx(x)).1);
        }
    }

    /// FX07: VX = delay timer.
    fn ld_vx_dt(&mut self, x: u8)
        requires
            old(self).wf(),
            !old(self)@.waiting,
            old(self)@.pc <= 0xFFE,
            x < 16,
        ensures
            final(self).wf(),
            final(self)@ == exec_spec(old(self)@, Instruction::LdVxDt(x)).1,
    {
        let dt = self.delay_timer;
        self.data_register[x as usize] = dt;
        self.program_counter = self.program_counter + 2;
        proof {
            assert(self@ =~= exec_spec(old(self)@, Instruction::LdVxDt(x)).1);
        }
    }

    /// FX0A: pause the machine until a key is pressed; the key lands
    /// in VX and the program counter moves on the step that sees it.
    fn ld_vx_k(&mut self, x: u8)
        requires
            old(self).wf(),
            !old(self)@.waiting,
            old(self)@.pc <= 0xFFE,
            x < 16,
        ensures
            final(self).wf(),
            final(self)@ == exec_spec(old(self)@, Instruction::LdVxK(x)).1,
    {
        self.keyboard_waiting = true;
        self.keyboard_register = x;
        proof {
            assert(self@ =~= exec_spec(old(self)@, Instruction::LdVxK(x)).1);
        }
    }

    /// FX15: delay timer = VX.
    fn ld_dt_vx(&mut self, x: u8)
        requires
            old(self).wf(),
            !old(self)@.waiting,
            old(self)@.pc <= 0xFFE,
            x < 16,
        ensures
            final(self).wf(),
            final(self)@ == exec_spec(old(self)@, Instruction::LdDtVx(x)).1,
    {
        let vx = self.data_register[x as usize];
        self.delay_timer = vx;
        self.program_counter = self.program_counter + 2;
        proof {
            assert(self@ =~= exec_spec(old(self)@, Instruction::LdDtVx(x)).1);
        }
    }

    /// FX18: sound timer = VX.
    fn ld_st_vx(&mut self, x: u8)
        requires
            old(self).wf(),
            !old(self)@.waiting,
            old(self)@.pc <= 0xFFE,
            x < 16,
        ensures
            final(self).wf(),
            final(self)@ == exec_spec(old(self)@, Instruction::LdStVx(x)).1,
    {
        let vx = self.data_register[x as usize];
        self.sound_timer = vx;
        self.program_counter = self.program_counter + 2;
        proof {
            assert(self@ =~= exec_spec(old(self)@, Instruction::LdStVx(x)).1);
        }
    }

    /// FX1E: I = I + VX, wrapping at the 16-bit boundary.
    fn add_i_vx(&mut self, x: u8)
        requires
            old(self).wf(),
            !old(self)@.waiting,
            old(self)@.pc <= 0xFFE,
            x < 16,
        ensures
            final(self).wf(),
            final(self)@ == exec_spec(old(self)@, Instruction::AddIVx(x)).1,
    {
        let vx = self.data_register[x as usize];
        let sum: u32 = self.address_register as u32 + vx as u32;
        self.address_register = (sum % 0x10000) as u16;
        self.program_counter = self.program_counter + 2;
        proof {
            assert(self@ =~= exec_spec(old(self)@, Instruction::AddIVx(x)).1);
        }
    }

    /// FX29: I = the address of the resident glyph for the low nibble
    /// of VX (five bytes per glyph from the base of memory).
    fn ld_f_vx(&mut self, x: u8)
        requires
            old(self).wf(),
            !old(self)@.waiting,
            old(self)@.pc <= 0xFFE,
            x < 16,
        ensures
            final(self).wf(),
            final(self)@ == exec_spec(old(self)@, Instruction::LdFVx(x)).1,
    {
        let vx = self.data_register[x as usize];
        self.address_register = (vx % 16) as u16 * 5;
        self.program_counter = self.program_counter + 2;
        proof {
            assert(self@ =~= exec_spec(old(self)@, Instruction::LdFVx(x)).1);
        }
    }

    /// FX33: store the decimal digits of VX (hundreds, tens, ones) at
    /// I, I+1, I+2.
    fn ld_b_vx(&mut self, x: u8)
        requires
            old(self).wf(),
            !old(self)@.waiting,
            old(self)@.pc <= 0xFFE,
            x < 16,
            old(self)@.addr + 2 < 4096,
        ensures
            final(self).wf(),
            final(self)@ == exec_spec(old(self)@, Instruction::LdBVx(x)).1,
    {
        let vx = self.data_register[x as usize];
        let base = self.address_register as usize;
        self.memory[base] = vx / 100;
        self.memory[base + 1] = (vx / 10) % 10;
        self.memory[base + 2] = vx % 10;
        self.program_counter = self.program_counter + 2;
        proof {
            assert(self@ =~= exec_spec(old(self)@, Instruction::LdBVx(x)).1);
        }
    }

    /// FX55: store V0..VX to memory starting at I; I itself is left
    /// unchanged.
    fn ld_i_vx(&mut self, x: u8)
        requires
            old(self).wf(),
            !old(self)@.waiting,
            old(self)@.pc <= 0xFFE,
            x < 16,
            old(self)@.addr + x < 4096,
        ensures
            final(self).wf(),
            final(self)@ == exec_spec(old(self)@, Instruction::LdIVx(x)).1,
    {
        let base = self.address_register as usize;
        let mut k: usize = 0;
        while k < x as usize + 1
            invariant
                old(self).wf(),
                x < 16,
                old(self)@.addr + x < 4096,
                base == old(self)@.addr,
                k <= x as usize + 1,
                self@.memory.len() == 4096,
                self@ == (MachineState { memory: self@.memory, ..old(self)@ }),
                forall|j: int| base <= j < base + k ==> self@.memory[j] == old(self)@.regs[j - base],
                forall|j: int|
                    0 <= j < 4096 && !(base <= j < base + k) ==> self@.memory[j] == old(
                        self,
                    )@.memory[j],
            decreases x as usize + 1 - k,
        {
            let v = self.data_register[k];
            self.memory[base + k] = v;
            k = k + 1;
        }
        self.program_counter = self.program_counter + 2;
        proof {
            assert(self@.memory =~= exec_spec(old(self)@, Instruction::LdIVx(x)).1.memory);
            assert(self@ =~= exec_spec(old(self)@, Instruction::LdIVx(x)).1);
        }
    }

    /// FX65: load V0..VX from memory starting at I; I itself is left
    /// unchanged.
    fn ld_vx_i(&mut self, x: u8)
        requires
            old(self).wf(),
            !old(self)@.waiting,
            old(self)@.pc <= 0xFFE,
            x < 16,
            old(self)@.addr + x < 4096,
        ensures
            final(self).wf(),
            final(self)@ == exec_spec(old(self)@, Instruction::LdVxI(x)).1,
    {
        let base = self.address_register as usize;
        let mut k: usize = 0;
        while k < x as usize + 1
            invariant
                old(self).wf(),
                x < 16,
                old(self)@.addr + x < 4096,
                base == old(self)@.addr,
                k <= x as usize + 1,
                self@.regs.len() == 16,
                self@ == (MachineState { regs: self@.regs, ..old(self)@ }),
                forall|j: int| 0 <= j < k ==> self@.regs[j] == old(self)@.memory[base + j],
                forall|j: int| k <= j < 16 ==> self@.regs[j] == old(self)@.regs[j],
            decreases x as usize + 1 - k,
        {
            let v = self.memory[base + k];
            self.data_register[k] = v;
            k = k + 1;
        }
        self.program_counter = self.program_counter + 2;
        proof {
            assert(self@.regs =~= exec_spec(old(self)@, Instruction::LdVxI(x)).1.regs);
            assert(self@ =~= exec_spec(old(self)@, Instruction::LdVxI(x)).1);
        }
    }

    /// Whether the machine is well formed; established by `new` and
    /// preserved by every operation.
    pub open spec fn wf(&self) -> bool {
        state_wf(self@)
    }

    /// A fresh machine: font resident at the base of memory, all
    /// registers, timers, keys and pixels zeroed, empty call stack,
    /// program counter at 0x200.
    pub fn new() -> (r: Self)
        ensures
            r.wf(),
            r@ == initial_state(),
    {
        let mut memory: Vec<u8> = vec![0u8; CHIP8_MEMORY];
        let mut j: usize = 0;
        while j < FONT_BYTES
            invariant
                j <= 80,
                memory@.len() == 4096,
                forall|k: int| 0 <= k < j ==> memory@[k] == spec_font_byte(k),
                forall|k: int| j <= k < 4096 ==> memory@[k] == 0u8,
            decreases 80 - j,
        {
            memory[j] = font_byte(j);
            j = j + 1;
        }
        let r = Chip8 {
            screen: vec![false; SCREEN_PIXELS],
            memory,
            data_register: vec![0u8; 16],
            address_register: 0,
            delay_timer: 0,
            sound_timer: 0,
            keyboard: vec![false; 16],
            keyboard_waiting: false,
            keyboard_register: 0,
            stack: Vec::new(),
            program_counter: 0x200,
            rng_state: RNG_SEED,
        };
        proof {
            assert(r@.memory =~= initial_state().memory);
            assert(r@.regs =~= initial_state().regs);
            assert(r@.keys =~= initial_state().keys);
            assert(r@.screen =~= initial_state().screen);
            assert(r@.stack =~= initial_state().stack);
            assert(r@ =~= initial_state());
        }
        r
    }

    /// Returns the machine to the fresh state `new` creates.
    pub fn reset(&mut self)
        ensures
            final(self).wf(),
            final(self)@ == initial_state(),
    {
        *self = Chip8::new();
    }

    /// Writes a program at 0x200.  Succeeds exactly when the program
    /// fits below the end of memory; a program even one byte larger is
    /// rejected untouched with `RomTooLarge`.
    pub fn load_rom(&mut self, rom_data: &[u8]) -> (r: Result<(), Chip8Error>)
        requires
            old(self).wf(),
        ensures
            final(self).wf(),
            rom_data@.len() <= 3584 ==> r == Ok::<(), Chip8Error>(()) && final(self)@ == load_spec(
                old(self)@,
                rom_data@,
            ),
            rom_data@.len() > 3584 ==> r == Err::<(), Chip8Error>(Chip8Error::RomTooLarge)
                && final(self)@ == old(self)@,
    {
        if rom_data.len() > MAX_ROM_SIZE {
            return Err(Chip8Error::RomTooLarge);
        }
        let mut i: usize = 0;
        while i < rom_data.len()
            invariant
                old(self).wf(),
                i <= rom_data@.len() <= 3584,
                self@.memory.len() == 4096,
                forall|k: int| 0x200 <= k < 0x200 + i ==> self@.memory[k] == rom_data@[k - 0x200],
                forall|k: int|
                    0 <= k < 4096 && !(0x200 <= k < 0x200 + i) ==> self@.memory[k] == old(
                        self,
                    )@.memory[k],
                self@ == (MachineState { memory: self@.memory, ..old(self)@ }),
            decreases rom_data@.len() - i,
        {
            self.memory[PROGRAM_START + i] = rom_data[i];
            i = i + 1;
        }
        proof {
            assert(self@.memory =~= load_spec(old(self)@, rom_data@).memory);
            assert(self@ =~= load_spec(old(self)@, rom_data@));
        }
        Ok(())
    }

    /// The big-endian word at `addr`, when `addr + 1` is still inside
    /// memory; `OutOfBoundsFetch` otherwise.
    pub fn read16(&self, addr: u16) -> (r: Result<u16, Chip8Error>)
        requires
            self.wf(),
        ensures
            addr as int + 1 < 4096 ==> r == Ok::<u16, Chip8Error>(word_at(self@, addr)),
            addr as int + 1 >= 4096 ==> r == Err::<u16, Chip8Error>(Chip8Error::OutOfBoundsFetch),
    {
        if addr > 0xFFE {
            return Err(Chip8Error::OutOfBoundsFetch);
        }
        let hi = self.memory[addr as usize];
        let lo = self.memory[addr as usize + 1];
        Ok(((hi as u16) << 8u16) | (lo as u16))
    }

    /// The byte at `addr`, bounds-checked.
    pub fn read8(&self, addr: u16) -> (r: Result<u8, Chip8Error>)
        requires
            self.wf(),
        ensures
            addr < 4096 ==> r == Ok::<u8, Chip8Error>(self@.memory[addr as int]),
            addr >= 4096 ==> r == Err::<u8, Chip8Error>(Chip8Error::OutOfBoundsFetch),
    {
        if addr >= 4096 {
            return Err(Chip8Error::OutOfBoundsFetch);
        }
        Ok(self.memory[addr as usize])
    }

    /// Writes the byte at `addr`, bounds-checked; an out-of-range
    /// address changes nothing.
    pub fn write8(&mut self, addr: u16, value: u8) -> (r: Result<(), Chip8Error>)
        requires
            old(self).wf(),
        ensures
            final(self).wf(),
            addr < 4096 ==> r == Ok::<(), Chip8Error>(()) && final(self)@ == (MachineState {
                memory: old(self)@.memory.update(addr as int, value),
                ..old(self)@
            }),
            addr >= 4096 ==> r == Err::<(), Chip8Error>(Chip8Error::OutOfBoundsFetch)
                && final(self)@ == old(self)@,
    {
        if addr >= 4096 {
            return Err(Chip8Error::OutOfBoundsFetch);
        }
        self.memory[addr as usize] = value;
        Ok(())
    }

    /// The instruction word at the program counter.
    pub fn get_opcode(&self) -> (r: u16)
        requires
            self.wf(),
            self@.pc as int + 1 < 4096,
        ensures
            r == spec_fetch(self@),
    {
        let hi = self.memory[self.program_counter as usize];
        let lo = self.memory[self.program_counter as usize + 1];
        ((hi as u16) << 8u16) | (lo as u16)
    }

    /// Updates one key latch.  A machine paused on the key wait picks
    /// a pressed key up on its next `step`.
    pub fn set_key(&mut self, index: u8, pressed: bool)
        requires
            old(self).wf(),
            index < 16,
        ensures
            final(self).wf(),
            final(self)@ == (MachineState {
                keys: old(self)@.keys.update(index as int, pressed),
                ..old(self)@
            }),
    {
        self.keyboard[index as usize] = pressed;
        proof {
            assert(self@ =~= (MachineState {
                keys: old(self)@.keys.update(index as int, pressed),
                ..old(self)@
            }));
        }
    }

    /// One external timer tick: each nonzero timer drops by one, never
    /// below zero.  Never invoked by instruction execution.
    pub fn tick_timer(&mut self)
        requires
            old(self).wf(),
        ensures
            final(self).wf(),
            final(self)@ == tick_spec(old(self)@),
    {
        if self.delay_timer > 0 {
            self.delay_timer = self.delay_timer - 1;
        }
        if self.sound_timer > 0 {
            self.sound_timer = self.sound_timer - 1;
        }
        proof {
            assert(self@ =~= tick_spec(old(self)@));
        }
    }

    /// Read-only view of the 64x32 pixel grid, row-major: pixel (x, y)
    /// is entry y*64+x.
    pub fn framebuffer_snapshot(&self) -> (r: &Vec<bool>)
        ensures
            r@ == self@.screen,
    {
        &self.screen
    }

    /// The delay timer.
    pub fn delay_timer_value(&self) -> (r: u8)
        ensures
            r == self@.delay,
    {
        self.delay_timer
    }

    /// The sound timer.
    pub fn sound_timer_value(&self) -> (r: u8)
        ensures
            r == self@.sound,
    {
        self.sound_timer
    }

    /// Register VX.
    pub fn register_value(&self, x: u8) -> (r: u8)
        requires
            self.wf(),
            x < 16,
        ensures
            r == self@.regs[x as int],
    {
        self.data_register[x as usize]
    }

    /// The program counter.
    pub fn program_counter_value(&self) -> (r: u16)
        ensures
            r == self@.pc,
    {
        self.program_counter
    }

    /// The address register I.
    pub fn address_register_value(&self) -> (r: u16)
        ensures
            r == self@.addr,
    {
        self.address_register
    }

    /// How many return addresses the call stack holds.
    pub fn stack_depth(&self) -> (r: usize)
        ensures
            r == self@.stack.len(),
    {
        self.stack.len()
    }

    /// Whether the machine is paused on the blocking key wait.
    pub fn waiting_for_key(&self) -> (r: bool)
        ensures
            r == self@.waiting,
    {
        self.keyboard_waiting
    }

    /// Fetches, decodes and executes the instruction at the program
    /// counter.  Exactly one application of `step_spec` for a machine
    /// that is not paused: every error (out-of-bounds fetch or address,
    /// unknown opcode, stack overflow or underflow) is reported with
    /// the machine unchanged.
    pub fn exec_opcode(&mut self) -> (r: Result<StepOutcome, Chip8Error>)
        requires
            old(self).wf(),
            !old(self)@.waiting,
        ensures
            final(self).wf(),
            r == step_spec(old(self)@).0,
            final(self)@ == step_spec(old(self)@).1,
    {
        if self.program_counter > 0xFFE {
            return Err(Chip8Error::OutOfBoundsFetch);
        }
        let op = self.get_opcode();
        let decoded = decode(op);
        match decoded {
            None => Err(Chip8Error::InvalidOpcode(op, self.program_counter)),
            Some(inst) => match inst {
                Instruction::Cls => {
                    self.cls();
                    Ok(StepOutcome::Advanced)
                },
                Instruction::Ret => {
                    if self.stack.len() == 0 {
                        return Err(Chip8Error::StackUnderflow);
                    }
                    self.ret();
                    Ok(StepOutcome::Advanced)
                },
                Instruction::Jp(nnn) => {
                    self.jp(nnn);
                    Ok(StepOutcome::Advanced)
                },
                Instruction::Call(nnn) => {
                    if self.stack.len() >= STACK_SIZE {
                        return Err(Chip8Error::StackOverflow);
                    }
                    self.call(nnn);
                    Ok(StepOutcome::Advanced)
                },
                Instruction::SeVxByte(x, nn) => {
                    self.se_vx_byte(x, nn);
                    Ok(StepOutcome::Advanced)
                },
                Instruction::SneVxByte(x, nn) => {
                    self.sne_vx_byte(x, nn);
                    Ok(StepOutcome::Advanced)
                },
                Instruction::SeVxVy(x, y) => {
                    self.se_vx_vy(x, y);
                    Ok(StepOutcome::Advanced)
                },
                Instruction::LdVxByte(x, nn) => {
                    self.ld_vx_byte(x, nn);
                    Ok(StepOutcome::Advanced)
                },
                Instruction::AddVxByte(x, nn) => {
                    self.add_vx_byte(x, nn);
                    Ok(StepOutcome::Advanced)
                },
                Instruction::LdVxVy(x, y) => {
                    self.ld_vx_vy(x, y);
                    Ok(StepOutcome::Advanced)
                },
                Instruction::OrVxVy(x, y) => {
                    self.or_vx_vy(x, y);
                    Ok(StepOutcome::Advanced)
                },
                Instruction::AndVxVy(x, y) => {
                    self.and_vx_vy(x, y);
                    Ok(StepOutcome::Advanced)
                },
                Instruction::XorVxVy(x, y) => {
                    self.xor_vx_vy(x, y);
                    Ok(StepOutcome::Advanced)
                },
                Instruction::AddVxVy(x, y) => {
                    self.add_vx_vy(x, y);
                    Ok(StepOutcome::Advanced)
                },
                Instruction::SubVxVy(x, y) => {
                    self.sub_vx_vy(x, y);
                    Ok(StepOutcome::Advanced)
                },
                Instruction::ShrVx(x) => {
                    self.shr_vx(x);
                    Ok(StepOutcome::Advanced)
                },
                Instruction::SubnVxVy(x, y) => {
                    self.subn_vx_vy(x, y);
                    Ok(StepOutcome::Advanced)
                },
                Instruction::ShlVx(x) => {
                    self.shl_vx(x);
                    Ok(StepOutcome::Advanced)
                },
                Instruction::SneVxVy(x, y) => {
                    self.sne_vx_vy(x, y);
                    Ok(StepOutcome::Advanced)
                },
                Instruction::LdIAddr(nnn) => {
                    self.ld_i_addr(nnn);
                    Ok(StepOutcome::Advanced)
                },
                Instruction::JpV0Addr(nnn) => {
                    self.jp_v0_addr(nnn);
                    Ok(StepOutcome::Advanced)
                },
                Instruction::RndVxByte(x, nn) => {
                    self.rnd_vx_byte(x, nn);
                    Ok(StepOutcome::Advanced)
                },
                Instruction::DrwVxVyN(x, y, n) => {
                    if self.address_register as usize + n as usize > CHIP8_MEMORY {
                        return Err(Chip8Error::OutOfBoundsFetch);
                    }
                    self.drw_vx_vy_n(x, y, n);
                    Ok(StepOutcome::Advanced)
                },
                Instruction::SkpVx(x) => {
                    self.skp_vx(x);
                    Ok(StepOutcome::Advanced)
                },
                Instruction::SknpVx(x) => {
                    self.sknp_vx(x);
                    Ok(StepOutcome::Advanced)
                },
                Instruction::LdVxDt(x) => {
                    self.ld_vx_dt(x);
                    Ok(StepOutcome::Advanced)
                },
                Instruction::LdVxK(x) => {
                    self.ld_vx_k(x);
                    Ok(StepOutcome::WaitingForKey)
                },
                Instruction::LdDtVx(x) => {
                    self.ld_dt_vx(x);
                    Ok(StepOutcome::Advanced)
                },
                Instruction::LdStVx(x) => {
                    self.ld_st_vx(x);
                    Ok(StepOutcome::Advanced)
                },
                Instruction::AddIVx(x) => {
                    self.add_i_vx(x);
                    Ok(StepOutcome::Advanced)
                },
                Instruction::LdFVx(x) => {
                    self.ld_f_vx(x);
                    Ok(StepOutcome::Advanced)
                },
                Instruction::LdBVx(x) => {
                    if self.address_register as usize + 2 >= CHIP8_MEMORY {
                        return Err(Chip8Error::OutOfBoundsFetch);
                    }
                    self.ld_b_vx(x);
                    Ok(StepOutcome::Advanced)
                },
                Instruction::LdIVx(x) => {
                    if self.address_register as usize + x as usize >= CHIP8_MEMORY {
                        return Err(Chip8Error::OutOfBoundsFetch);
                    }
                    self.ld_i_vx(x);
                    Ok(StepOutcome::Advanced)
                },
                Instruction::LdVxI(x) => {
                    if self.address_register as usize + x as usize >= CHIP8_MEMORY {
                        return Err(Chip8Error::OutOfBoundsFetch);
                    }
                    self.ld_vx_i(x);
                    Ok(StepOutcome::Advanced)
                },
            },
        }
    }

    /// One step of the machine.  A machine paused on the key wait
    /// re-checks the latch: with no key pressed it reports the pause
    /// and changes nothing; otherwise the lowest pressed key lands in
    /// the wait target register, the pause ends and the program
    /// counter moves past the wait instruction.  A running machine
    /// fetches, decodes and executes one instruction.
    #[verifier::rlimit(50)]
    pub fn step(&mut self) -> (r: Result<StepOutcome, Chip8Error>)
        requires
            old(self).wf(),
        ensures
            final(self).wf(),
            r == step_spec(old(self)@).0,
            final(self)@ == step_spec(old(self)@).1,
    {
        if self.keyboard_waiting {
            let mut i: usize = 0;
            while i < 16
                invariant
                    old(self).wf(),
                    old(self)@.waiting,
                    self@ == old(self)@,
                    i <= 16,
                    first_pressed(self@.keys) == first_pressed_from(self@.keys, i as int),
                decreases 16 - i,
            {
                if self.keyboard[i] {
                    let k = i as u8;
                    proof {
                        assert(first_pressed(old(self)@.keys) == Some(k));
                    }
                    let target = self.keyboard_register;
                    self.data_register[target as usize] = k;
                    self.keyboard_waiting = false;
                    self.program_counter = self.program_counter + 2;
                    proof {
                        assert(self@ =~= step_spec(old(self)@).1);
                    }
                    return Ok(StepOutcome::Advanced);
                }
                i = i + 1;
            }
            return Ok(StepOutcome::WaitingForKey);
        }
        self.exec_opcode()
    }
}

} // verus!
