//! Opcode decoding.
//!
//! A 16-bit opcode word is decoded by nibble pattern into at most one
//! [`Instruction`].  `decode` is proved equal to the total spec function
//! `spec_decode`, so every one of the 65536 possible bit patterns resolves
//! to exactly one instruction, or to `None` (an invalid opcode); no
//! pattern can map to two instructions.

use vstd::prelude::*;

verus! {

/// One decoded instruction, carrying its operands: register indices
/// `x` and `y` (always below 16), a 4-bit immediate `n`, an 8-bit
/// immediate `nn`, or a 12-bit address `nnn`.
#[derive(Clone, Copy, Debug, PartialEq, Eq, Structural)]
pub enum Instruction {
    /// 00E0: clear the screen.
    Cls,
    /// 00EE: return from a subroutine.
    Ret,
    /// 1NNN: jump to NNN.
    Jp(u16),
    /// 2NNN: call the subroutine at NNN.
    Call(u16),
    /// 3XNN: skip the next instruction if VX == NN.
    SeVxByte(u8, u8),
    /// 4XNN: skip the next instruction if VX != NN.
    SneVxByte(u8, u8),
    /// 5XY0: skip the next instruction if VX == VY.
    SeVxVy(u8, u8),
    /// 6XNN: VX = NN.
    LdVxByte(u8, u8),
    /// 7XNN: VX = VX + NN, wrapping, flags untouched.
    AddVxByte(u8, u8),
    /// 8XY0: VX = VY.
    LdVxVy(u8, u8),
    /// 8XY1: VX = VX | VY.
    OrVxVy(u8, u8),
    /// 8XY2: VX = VX & VY.
    AndVxVy(u8, u8),
    /// 8XY3: VX = VX ^ VY.
    XorVxVy(u8, u8),
    /// 8XY4: VX = VX + VY wrapping, VF = carry.
    AddVxVy(u8, u8),
    /// 8XY5: VX = VX - VY wrapping, VF = 1 when no borrow.
    SubVxVy(u8, u8),
    /// 8XY6: VF = low bit of VX, VX = VX >> 1.
    ShrVx(u8),
    /// 8XY7: VX = VY - VX wrapping, VF = 1 when no borrow.
    SubnVxVy(u8, u8),
    /// 8XYE: VF = high bit of VX, VX = VX << 1.
    ShlVx(u8),
    /// 9XY0: skip the next instruction if VX != VY.
    SneVxVy(u8, u8),
    /// ANNN: I = NNN.
    LdIAddr(u16),
    /// BNNN: jump to NNN + V0.
    JpV0Addr(u16),
    /// CXNN: VX = random byte & NN.
    RndVxByte(u8, u8),
    /// DXYN: draw the N-byte sprite at memory address I at (VX, VY),
    /// XOR-compositing; VF = collision.
    DrwVxVyN(u8, u8, u8),
    /// EX9E: skip the next instruction if the key in VX is pressed.
    SkpVx(u8),
    /// EXA1: skip the next instruction if the key in VX is not pressed.
    SknpVx(u8),
    /// FX07: VX = delay timer.
    LdVxDt(u8),
    /// FX0A: pause until a key is pressed, then store it in VX.
    LdVxK(u8),
    /// FX15: delay timer = VX.
    LdDtVx(u8),
    /// FX18: sound timer = VX.
    LdStVx(u8),
    /// FX1E: I = I + VX, wrapping.
    AddIVx(u8),
    /// FX29: I = address of the font glyph for the low nibble of VX.
    LdFVx(u8),
    /// FX33: store the three decimal digits of VX at I, I+1, I+2.
    LdBVx(u8),
    /// FX55: store V0..VX to memory starting at I.
    LdIVx(u8),
    /// FX65: load V0..VX from memory starting at I.
    LdVxI(u8),
}

/// Every operand a decoded instruction carries is in range: register
/// indices below 16, addresses below 0x1000, sprite heights below 16.
pub open spec fn inst_operands_ok(inst: Instruction) -> bool {
    match inst {
        Instruction::Cls => true,
        Instruction::Ret => true,
        Instruction::Jp(nnn) => nnn < 0x1000,
        Instruction::Call(nnn) => nnn < 0x1000,
        Instruction::SeVxByte(x, _nn) => x < 16,
        Instruction::SneVxByte(x, _nn) => x < 16,
        Instruction::SeVxVy(x, y) => x < 16 && y < 16,
        Instruction::LdVxByte(x, _nn) => x < 16,
        Instruction::AddVxByte(x, _nn) => x < 16,
        Instruction::LdVxVy(x, y) => x < 16 && y < 16,
        Instruction::OrVxVy(x, y) => x < 16 && y < 16,
        Instruction::AndVxVy(x, y) => x < 16 && y < 16,
        Instruction::XorVxVy(x, y) => x < 16 && y < 16,
        Instruction::AddVxVy(x, y) => x < 16 && y < 16,
        Instruction::SubVxVy(x, y) => x < 16 && y < 16,
        Instruction::ShrVx(x) => x < 16,
        Instruction::SubnVxVy(x, y) => x < 16 && y < 16,
        Instruction::ShlVx(x) => x < 16,
        Instruction::SneVxVy(x, y) => x < 16 && y < 16,
        Instruction::LdIAddr(nnn) => nnn < 0x1000,
        Instruction::JpV0Addr(nnn) => nnn < 0x1000,
        Instruction::RndVxByte(x, _nn) => x < 16,
        Instruction::DrwVxVyN(x, y, n) => x < 16 && y < 16 && n < 16,
        Instruction::SkpVx(x) => x < 16,
        Instruction::SknpVx(x) => x < 16,
        Instruction::LdVxDt(x) => x < 16,
        Instruction::LdVxK(x) => x < 16,
        Instruction::LdDtVx(x) => x < 16,
        Instruction::LdStVx(x) => x < 16,
        Instruction::AddIVx(x) => x < 16,
        Instruction::LdFVx(x) => x < 16,
        Instruction::LdBVx(x) => x < 16,
        Instruction::LdIVx(x) => x < 16,
        Instruction::LdVxI(x) => x < 16,
    }
}

/// What `decode` returns: the unique instruction an opcode word stands
/// for, or `None` when the bit pattern belongs to no instruction.
pub open spec fn spec_decode(op: u16) -> Option<Instruction> {
    let x = ((op >> 8u16) & 0xF) as u8;
    let y = ((op >> 4u16) & 0xF) as u8;
    let n = (op & 0xF) as u8;
    let nn = (op & 0xFF) as u8;
    let nnn = op & 0xFFF;
    let family = op >> 12u16;
    if family == 0x0 {
        if op == 0x00E0 {
            Some(Instruction::Cls)
        } else if op == 0x00EE {
            Some(Instruction::Ret)
        } else {
            None
        }
    } else if family == 0x1 {
        Some(Instruction::Jp(nnn))
    } else if family == 0x2 {
        Some(Instruction::Call(nnn))
    } else if family == 0x3 {
        Some(Instruction::SeVxByte(x, nn))
    } else if family == 0x4 {
        Some(Instruction::SneVxByte(x, nn))
    } else if family == 0x5 {
        if n == 0 {
            Some(Instruction::SeVxVy(x, y))
        } else {
            None
        }
    } else if family == 0x6 {
        Some(Instruction::LdVxByte(x, nn))
    } else if family == 0x7 {
        Some(Instruction::AddVxByte(x, nn))
    } else if family == 0x8 {
        if n == 0x0 {
            Some(Instruction::LdVxVy(x, y))
        } else if n == 0x1 {
            Some(Instruction::OrVxVy(x, y))
        } else if n == 0x2 {
            Some(Instruction::AndVxVy(x, y))
        } else if n == 0x3 {
            Some(Instruction::XorVxVy(x, y))
        } else if n == 0x4 {
            Some(Instruction::AddVxVy(x, y))
        } else if n == 0x5 {
            Some(Instruction::SubVxVy(x, y))
        } else if n == 0x6 {
            Some(Instruction::ShrVx(x))
        } else if n == 0x7 {
            Some(Instruction::SubnVxVy(x, y))
        } else if n == 0xE {
            Some(Instruction::ShlVx(x))
        } else {
            None
        }
    } else if family == 0x9 {
        if n == 0 {
            Some(Instruction::SneVxVy(x, y))
        } else {
            None
        }
    } else if family == 0xA {
        Some(Instruction::LdIAddr(nnn))
    } else if family == 0xB {
        Some(Instruction::JpV0Addr(nnn))
    } else if family == 0xC {
        Some(Instruction::RndVxByte(x, nn))
    } else if family == 0xD {
        Some(Instruction::DrwVxVyN(x, y, n))
    } else if family == 0xE {
        if nn == 0x9E {
            Some(Instruction::SkpVx(x))
        } else if nn == 0xA1 {
            Some(Instruction::SknpVx(x))
        } else {
            None
        }
    } else {
        if nn == 0x07 {
            Some(Instruction::LdVxDt(x))
        } else if nn == 0x0A {
            Some(Instruction::LdVxK(x))
        } else if nn == 0x15 {
            Some(Instruction::LdDtVx(x))
        } else if nn == 0x18 {
            Some(Instruction::LdStVx(x))
        } else if nn == 0x1E {
            Some(Instruction::AddIVx(x))
        } else if nn == 0x29 {
            Some(Instruction::LdFVx(x))
        } else if nn == 0x33 {
            Some(Instruction::LdBVx(x))
        } else if nn == 0x55 {
            Some(Instruction::LdIVx(x))
        } else if nn == 0x65 {
            Some(Instruction::LdVxI(x))
        } else {
            None
        }
    }
}

/// The operand fields an opcode word can carry are bounded by their
/// widths.
pub proof fn lemma_opcode_fields(op: u16)
    by (bit_vector)
    ensures
        (op >> 8u16) & 0xF < 16,
        (op >> 4u16) & 0xF < 16,
        op & 0xF < 16,
        op & 0xFF < 256,
        op & 0xFFF < 0x1000,
{
}

/// Every opcode a decoded instruction comes from yields in-range
/// operands.
pub proof fn lemma_decode_operands_ok(op: u16)
    ensures
        spec_decode(op) matches Some(inst) ==> inst_operands_ok(inst),
{
    lemma_opcode_fields(op);
}

/// Decodes one opcode word.  The result equals `spec_decode(op)`, a
/// total function of the word alone: each of the 65536 bit patterns
/// maps to exactly one instruction or to `None`.
pub fn decode(op: u16) -> (r: Option<Instruction>)
    ensures
        r == spec_decode(op),
        r matches Some(inst) ==> inst_operands_ok(inst),
{
    proof {
        lemma_opcode_fields(op);
    }
    let x = ((op >> 8u16) & 0xF) as u8;
    let y = ((op >> 4u16) & 0xF) as u8;
    let n = (op & 0xF) as u8;
    let nn = (op & 0xFF) as u8;
    let nnn = op & 0xFFF;
    let family = op >> 12u16;
    if family == 0x0 {
        if op == 0x00E0 {
            Some(Instruction::Cls)
        } else if op == 0x00EE {
            Some(Instruction::Ret)
        } else {
            None
        }
    } else if family == 0x1 {
        Some(Instruction::Jp(nnn))
    } else if family == 0x2 {
        Some(Instruction::Call(nnn))
    } else if family == 0x3 {
        Some(Instruction::SeVxByte(x, nn))
    } else if family == 0x4 {
        Some(Instruction::SneVxByte(x, nn))
    } else if family == 0x5 {
        if n == 0 {
            Some(Instruction::SeVxVy(x, y))
        } else {
            None
        }
    } else if family == 0x6 {
        Some(Instruction::LdVxByte(x, nn))
    } else if family == 0x7 {
        Some(Instruction::AddVxByte(x, nn))
    } else if family == 0x8 {
        if n == 0x0 {
            Some(Instruction::LdVxVy(x, y))
        } else if n == 0x1 {
            Some(Instruction::OrVxVy(x, y))
        } else if n == 0x2 {
            Some(Instruction::AndVxVy(x, y))
        } else if n == 0x3 {
            Some(Instruction::XorVxVy(x, y))
        } else if n == 0x4 {
            Some(Instruction::AddVxVy(x, y))
        } else if n == 0x5 {
            Some(Instruction::SubVxVy(x, y))
        } else if n == 0x6 {
            Some(Instruction::ShrVx(x))
        } else if n == 0x7 {
            Some(Instruction::SubnVxVy(x, y))
        } else if n == 0xE {
            Some(Instruction::ShlVx(x))
        } else {
            None
        }
    } else if family == 0x9 {
        if n == 0 {
            Some(Instruction::SneVxVy(x, y))
        } else {
            None
        }
    } else if family == 0xA {
        Some(Instruction::LdIAddr(nnn))
    } else if family == 0xB {
        Some(Instruction::JpV0Addr(nnn))
    } else if family == 0xC {
        Some(Instruction::RndVxByte(x, nn))
    } else if family == 0xD {
        Some(Instruction::DrwVxVyN(x, y, n))
    } else if family == 0xE {
        if nn == 0x9E {
            Some(Instruction::SkpVx(x))
        } else if nn == 0xA1 {
            Some(Instruction::SknpVx(x))
        } else {
            None
        }
    } else {
        if nn == 0x07 {
            Some(Instruction::LdVxDt(x))
        } else if nn == 0x0A {
            Some(Instruction::LdVxK(x))
        } else if nn == 0x15 {
            Some(Instruction::LdDtVx(x))
        } else if nn == 0x18 {
            Some(Instruction::LdStVx(x))
        } else if nn == 0x1E {
            Some(Instruction::AddIVx(x))
        } else if nn == 0x29 {
            Some(Instruction::LdFVx(x))
        } else if nn == 0x33 {
            Some(Instruction::LdBVx(x))
        } else if nn == 0x55 {
            Some(Instruction::LdIVx(x))
        } else if nn == 0x65 {
            Some(Instruction::LdVxI(x))
        } else {
            None
        }
    }
}

} // verus!
