//! Decoded instructions and the opcode decoder.

use vstd::prelude::*;

use crate::masks::{
    fourth_nibble, lemma_nibbles_compose, low_12_bits, low_byte, ooox, ooxo, ooxx, oxoo, oxxx,
    second_nibble, third_nibble, top_nibble, xooo,
};

verus! {

pub type Address = u16;

pub type Byte = u8;

pub type Nibble = u8;

pub type IRegister = u16;

pub type Register = u8;

/// One variant per supported opcode pattern. `X` and `Y` are register
/// indices, `NN` an 8-bit immediate, `NNN` a 12-bit address, `N` a 4-bit count.
#[allow(non_camel_case_types)]
#[derive(Clone, Copy, Debug, PartialEq, Eq, Structural)]
pub enum Instruction {
    /// Clear the screen.
    OP_00E0,
    /// Return from a subroutine.
    OP_00EE,
    /// Jump to `NNN`.
    OP_1NNN(Address),
    /// Call the subroutine at `NNN`.
    OP_2NNN(Address),
    /// Skip the next instruction if `VX == NN`.
    OP_3XNN(Register, Byte),
    /// Skip the next instruction if `VX != NN`.
    OP_4XNN(Register, Byte),
    /// Skip the next instruction if `VX == VY`.
    OP_5XY0(Register, Register),
    /// `VX = NN`.
    OP_6XNN(Register, Byte),
    /// `VX += NN`, wrapping, flag untouched.
    OP_7XNN(Register, Byte),
    /// `VX = VY`.
    OP_8XY0(Register, Register),
    /// `VX |= VY`.
    OP_8XY1(Register, Register),
    /// `VX &= VY`.
    OP_8XY2(Register, Register),
    /// `VX ^= VY`.
    OP_8XY3(Register, Register),
    /// `VX += VY`, `VF` = carry.
    OP_8XY4(Register, Register),
    /// `VX -= VY`, `VF` = 1 iff `VX > VY`.
    OP_8XY5(Register, Register),
    /// `VX = VY >> 1`, `VF` = the bit shifted out.
    OP_8XY6(Register, Register),
    /// `VX = VY - VX`, `VF` = 1 iff `VY > VX`.
    OP_8XY7(Register, Register),
    /// `VX = VY << 1`, `VF` = the bit shifted out.
    OP_8XYE(Register, Register),
    /// Skip the next instruction if `VX != VY`.
    OP_9XY0(Register, Register),
    /// `I = NNN`.
    OP_ANNN(Address),
    /// Jump to `NNN + V0`.
    OP_BNNN(Address),
    /// `VX = random & NN`.
    OP_CXNN(Register, Byte),
    /// Draw an 8-by-`N` sprite from memory at `I` to `(VX, VY)`.
    OP_DXYN(Register, Register, Nibble),
    /// Skip the next instruction if key `VX` is down.
    OP_EX9E(Register),
    /// Skip the next instruction if key `VX` is not down.
    OP_EXA1(Register),
    /// `VX = delay timer`.
    OP_FX07(Register),
    /// Wait for a key, then store its index in `VX`.
    OP_FX0A(Register),
    /// `delay timer = VX`.
    OP_FX15(Register),
    /// `sound timer = VX`.
    OP_FX18(Register),
    /// `I += VX`.
    OP_FX1E(Register),
    /// `I` = address of the glyph for the low digit of `VX`.
    OP_FX29(Register),
    /// Store the three decimal digits of `VX` at `I`, `I + 1`, `I + 2`.
    OP_FX33(Register),
    /// Store `V0..=VX` to memory at `I`.
    OP_FX55(Register),
    /// Load `V0..=VX` from memory at `I`.
    OP_FX65(Register),
}

impl Instruction {
    /// Every operand fits the opcode field it came from.
    pub open spec fn wf(self) -> bool {
        match self {
            Instruction::OP_00E0 | Instruction::OP_00EE => true,
            Instruction::OP_1NNN(nnn)
            | Instruction::OP_2NNN(nnn)
            | Instruction::OP_ANNN(nnn)
            | Instruction::OP_BNNN(nnn) => nnn < 0x1000,
            Instruction::OP_3XNN(x, _)
            | Instruction::OP_4XNN(x, _)
            | Instruction::OP_6XNN(x, _)
            | Instruction::OP_7XNN(x, _)
            | Instruction::OP_CXNN(x, _) => x < 0x10,
            Instruction::OP_5XY0(x, y)
            | Instruction::OP_8XY0(x, y)
            | Instruction::OP_8XY1(x, y)
            | Instruction::OP_8XY2(x, y)
            | Instruction::OP_8XY3(x, y)
            | Instruction::OP_8XY4(x, y)
            | Instruction::OP_8XY5(x, y)
            | Instruction::OP_8XY6(x, y)
            | Instruction::OP_8XY7(x, y)
            | Instruction::OP_8XYE(x, y)
            | Instruction::OP_9XY0(x, y) => x < 0x10 && y < 0x10,
            Instruction::OP_DXYN(x, y, n) => x < 0x10 && y < 0x10 && n < 0x10,
            Instruction::OP_EX9E(x)
            | Instruction::OP_EXA1(x)
            | Instruction::OP_FX07(x)
            | Instruction::OP_FX0A(x)
            | Instruction::OP_FX15(x)
            | Instruction::OP_FX18(x)
            | Instruction::OP_FX1E(x)
            | Instruction::OP_FX29(x)
            | Instruction::OP_FX33(x)
            | Instruction::OP_FX55(x)
            | Instruction::OP_FX65(x) => x < 0x10,
        }
    }

    /// The opcode that denotes this instruction: the pattern in the variant's
    /// name with the operands in place of the letters.
    pub open spec fn encode(self) -> int {
        match self {
            Instruction::OP_00E0 => 0x00E0,
            Instruction::OP_00EE => 0x00EE,
            Instruction::OP_1NNN(nnn) => 0x1000 + nnn,
            Instruction::OP_2NNN(nnn) => 0x2000 + nnn,
            Instruction::OP_3XNN(x, nn) => 0x3000 + x * 0x100 + nn,
            Instruction::OP_4XNN(x, nn) => 0x4000 + x * 0x100 + nn,
            Instruction::OP_5XY0(x, y) => 0x5000 + x * 0x100 + y * 0x10,
            Instruction::OP_6XNN(x, nn) => 0x6000 + x * 0x100 + nn,
            Instruction::OP_7XNN(x, nn) => 0x7000 + x * 0x100 + nn,
            Instruction::OP_8XY0(x, y) => 0x8000 + x * 0x100 + y * 0x10,
            Instruction::OP_8XY1(x, y) => 0x8001 + x * 0x100 + y * 0x10,
            Instruction::OP_8XY2(x, y) => 0x8002 + x * 0x100 + y * 0x10,
            Instruction::OP_8XY3(x, y) => 0x8003 + x * 0x100 + y * 0x10,
            Instruction::OP_8XY4(x, y) => 0x8004 + x * 0x100 + y * 0x10,
            Instruction::OP_8XY5(x, y) => 0x8005 + x * 0x100 + y * 0x10,
            Instruction::OP_8XY6(x, y) => 0x8006 + x * 0x100 + y * 0x10,
            Instruction::OP_8XY7(x, y) => 0x8007 + x * 0x100 + y * 0x10,
            Instruction::OP_8XYE(x, y) => 0x800E + x * 0x100 + y * 0x10,
            Instruction::OP_9XY0(x, y) => 0x9000 + x * 0x100 + y * 0x10,
            Instruction::OP_ANNN(nnn) => 0xA000 + nnn,
            Instruction::OP_BNNN(nnn) => 0xB000 + nnn,
            Instruction::OP_CXNN(x, nn) => 0xC000 + x * 0x100 + nn,
            Instruction::OP_DXYN(x, y, n) => 0xD000 + x * 0x100 + y * 0x10 + n,
            Instruction::OP_EX9E(x) => 0xE09E + x * 0x100,
            Instruction::OP_EXA1(x) => 0xE0A1 + x * 0x100,
            Instruction::OP_FX07(x) => 0xF007 + x * 0x100,
            Instruction::OP_FX0A(x) => 0xF00A + x * 0x100,
            Instruction::OP_FX15(x) => 0xF015 + x * 0x100,
            Instruction::OP_FX18(x) => 0xF018 + x * 0x100,
            Instruction::OP_FX1E(x) => 0xF01E + x * 0x100,
            Instruction::OP_FX29(x) => 0xF029 + x * 0x100,
            Instruction::OP_FX33(x) => 0xF033 + x * 0x100,
            Instruction::OP_FX55(x) => 0xF055 + x * 0x100,
            Instruction::OP_FX65(x) => 0xF065 + x * 0x100,
        }
    }

    /// Decodes an opcode, or returns `None` where its family and
    /// sub-opcode name no supported instruction.
    pub fn new(v: u16) -> (r: Option<Self>)
        ensures
            r == decode(v),
            r matches Some(instruction) ==> instruction.wf(),
    {
        match xooo(&v) {
            0x0 => match ooxx(&v) {
                0xE0 => Some(Instruction::OP_00E0),
                0xEE => Some(Instruction::OP_00EE),
                _ => None,
            },
            0x1 => Some(Instruction::OP_1NNN(oxxx(&v))),
            0x2 => Some(Instruction::OP_2NNN(oxxx(&v))),
            0x3 => Some(Instruction::OP_3XNN(oxoo(&v), ooxx(&v))),
            0x4 => Some(Instruction::OP_4XNN(oxoo(&v), ooxx(&v))),
            0x5 => Some(Instruction::OP_5XY0(oxoo(&v), ooxo(&v))),
            0x6 => Some(Instruction::OP_6XNN(oxoo(&v), ooxx(&v))),
            0x7 => Some(Instruction::OP_7XNN(oxoo(&v), ooxx(&v))),
            0x8 => match ooox(&v) {
                0x0 => Some(Instruction::OP_8XY0(oxoo(&v), ooxo(&v))),
                0x1 => Some(Instruction::OP_8XY1(oxoo(&v), ooxo(&v))),
                0x2 => Some(Instruction::OP_8XY2(oxoo(&v), ooxo(&v))),
                0x3 => Some(Instruction::OP_8XY3(oxoo(&v), ooxo(&v))),
                0x4 => Some(Instruction::OP_8XY4(oxoo(&v), ooxo(&v))),
                0x5 => Some(Instruction::OP_8XY5(oxoo(&v), ooxo(&v))),
                0x6 => Some(Instruction::OP_8XY6(oxoo(&v), ooxo(&v))),
                0x7 => Some(Instruction::OP_8XY7(oxoo(&v), ooxo(&v))),
                0xE => Some(Instruction::OP_8XYE(oxoo(&v), ooxo(&v))),
                _ => None,
            },
            0x9 => Some(Instruction::OP_9XY0(oxoo(&v), ooxo(&v))),
            0xA => Some(Instruction::OP_ANNN(oxxx(&v))),
            0xB => Some(Instruction::OP_BNNN(oxxx(&v))),
            0xC => Some(Instruction::OP_CXNN(oxoo(&v), ooxx(&v))),
            0xD => Some(Instruction::OP_DXYN(oxoo(&v), ooxo(&v), ooox(&v))),
            0xE => match ooxx(&v) {
                0x9E => Some(Instruction::OP_EX9E(oxoo(&v))),
                0xA1 => Some(Instruction::OP_EXA1(oxoo(&v))),
                _ => None,
            },
            0xF => match ooxx(&v) {
                0x07 => Some(Instruction::OP_FX07(oxoo(&v))),
                0x0A => Some(Instruction::OP_FX0A(oxoo(&v))),
                0x15 => Some(Instruction::OP_FX15(oxoo(&v))),
                0x18 => Some(Instruction::OP_FX18(oxoo(&v))),
                0x1E => Some(Instruction::OP_FX1E(oxoo(&v))),
                0x29 => Some(Instruction::OP_FX29(oxoo(&v))),
                0x33 => Some(Instruction::OP_FX33(oxoo(&v))),
                0x55 => Some(Instruction::OP_FX55(oxoo(&v))),
                0x65 => Some(Instruction::OP_FX65(oxoo(&v))),
                _ => None,
            },
            _ => None,
        }
    }

    /// The opcode that denotes this instruction.
    pub fn opcode(&self) -> (v: u16)
        requires
            self.wf(),
        ensures
            v == self.encode(),
    {
        match *self {
            Instruction::OP_00E0 => 0x00E0,
            Instruction::OP_00EE => 0x00EE,
            Instruction::OP_1NNN(nnn) => 0x1000 + nnn,
            Instruction::OP_2NNN(nnn) => 0x2000 + nnn,
            Instruction::OP_3XNN(x, nn) => with_operands(0x3000, x, nn),
            Instruction::OP_4XNN(x, nn) => with_operands(0x4000, x, nn),
            Instruction::OP_5XY0(x, y) => with_operands(0x5000, x, y * 0x10),
            Instruction::OP_6XNN(x, nn) => with_operands(0x6000, x, nn),
            Instruction::OP_7XNN(x, nn) => with_operands(0x7000, x, nn),
            Instruction::OP_8XY0(x, y) => with_operands(0x8000, x, y * 0x10),
            Instruction::OP_8XY1(x, y) => with_operands(0x8001, x, y * 0x10),
            Instruction::OP_8XY2(x, y) => with_operands(0x8002, x, y * 0x10),
            Instruction::OP_8XY3(x, y) => with_operands(0x8003, x, y * 0x10),
            Instruction::OP_8XY4(x, y) => with_operands(0x8004, x, y * 0x10),
            Instruction::OP_8XY5(x, y) => with_operands(0x8005, x, y * 0x10),
            Instruction::OP_8XY6(x, y) => with_operands(0x8006, x, y * 0x10),
            Instruction::OP_8XY7(x, y) => with_operands(0x8007, x, y * 0x10),
            Instruction::OP_8XYE(x, y) => with_operands(0x800E, x, y * 0x10),
            Instruction::OP_9XY0(x, y) => with_operands(0x9000, x, y * 0x10),
            Instruction::OP_ANNN(nnn) => 0xA000 + nnn,
            Instruction::OP_BNNN(nnn) => 0xB000 + nnn,
            Instruction::OP_CXNN(x, nn) => with_operands(0xC000, x, nn),
            Instruction::OP_DXYN(x, y, n) => with_operands(0xD000, x, y * 0x10 + n),
            Instruction::OP_EX9E(x) => with_operands(0xE000, x, 0x9E),
            Instruction::OP_EXA1(x) => with_operands(0xE000, x, 0xA1),
            Instruction::OP_FX07(x) => with_operands(0xF000, x, 0x07),
            Instruction::OP_FX0A(x) => with_operands(0xF000, x, 0x0A),
            Instruction::OP_FX15(x) => with_operands(0xF000, x, 0x15),
            Instruction::OP_FX18(x) => with_operands(0xF000, x, 0x18),
            Instruction::OP_FX1E(x) => with_operands(0xF000, x, 0x1E),
            Instruction::OP_FX29(x) => with_operands(0xF000, x, 0x29),
            Instruction::OP_FX33(x) => with_operands(0xF000, x, 0x33),
            Instruction::OP_FX55(x) => with_operands(0xF000, x, 0x55),
            Instruction::OP_FX65(x) => with_operands(0xF000, x, 0x65),
        }
    }
}

/// What an opcode of family `0x8` denotes, by its fourth digit.
pub open spec fn decode_arithmetic(x: u8, y: u8, sub: u8) -> Option<Instruction> {
    if sub == 0x0 {
        Some(Instruction::OP_8XY0(x, y))
    } else if sub == 0x1 {
        Some(Instruction::OP_8XY1(x, y))
    } else if sub == 0x2 {
        Some(Instruction::OP_8XY2(x, y))
    } else if sub == 0x3 {
        Some(Instruction::OP_8XY3(x, y))
    } else if sub == 0x4 {
        Some(Instruction::OP_8XY4(x, y))
    } else if sub == 0x5 {
        Some(Instruction::OP_8XY5(x, y))
    } else if sub == 0x6 {
        Some(Instruction::OP_8XY6(x, y))
    } else if sub == 0x7 {
        Some(Instruction::OP_8XY7(x, y))
    } else if sub == 0xE {
        Some(Instruction::OP_8XYE(x, y))
    } else {
        None
    }
}

/// What an opcode of family `0xF` denotes, by its low byte.
pub open spec fn decode_transfer(x: u8, nn: u8) -> Option<Instruction> {
    if nn == 0x07 {
        Some(Instruction::OP_FX07(x))
    } else if nn == 0x0A {
        Some(Instruction::OP_FX0A(x))
    } else if nn == 0x15 {
        Some(Instruction::OP_FX15(x))
    } else if nn == 0x18 {
        Some(Instruction::OP_FX18(x))
    } else if nn == 0x1E {
        Some(Instruction::OP_FX1E(x))
    } else if nn == 0x29 {
        Some(Instruction::OP_FX29(x))
    } else if nn == 0x33 {
        Some(Instruction::OP_FX33(x))
    } else if nn == 0x55 {
        Some(Instruction::OP_FX55(x))
    } else if nn == 0x65 {
        Some(Instruction::OP_FX65(x))
    } else {
        None
    }
}

/// The instruction an opcode denotes. The top digit selects the family;
/// families `0x0`, `0xE` and `0xF` select further on the low byte and family
/// `0x8` on the fourth digit. Families `0x5` and `0x9` ignore the fourth
/// digit, and family `0x0` ignores the second.
pub open spec fn decode(v: u16) -> Option<Instruction> {
    let family = top_nibble(v);
    let x = second_nibble(v);
    let y = third_nibble(v);
    let n = fourth_nibble(v);
    let nn = low_byte(v);
    let nnn = low_12_bits(v);
    if family == 0x0 {
        if nn == 0xE0 {
            Some(Instruction::OP_00E0)
        } else if nn == 0xEE {
            Some(Instruction::OP_00EE)
        } else {
            None
        }
    } else if family == 0x1 {
        Some(Instruction::OP_1NNN(nnn))
    } else if family == 0x2 {
        Some(Instruction::OP_2NNN(nnn))
    } else if family == 0x3 {
        Some(Instruction::OP_3XNN(x, nn))
    } else if family == 0x4 {
        Some(Instruction::OP_4XNN(x, nn))
    } else if family == 0x5 {
        Some(Instruction::OP_5XY0(x, y))
    } else if family == 0x6 {
        Some(Instruction::OP_6XNN(x, nn))
    } else if family == 0x7 {
        Some(Instruction::OP_7XNN(x, nn))
    } else if family == 0x8 {
        decode_arithmetic(x, y, n)
    } else if family == 0x9 {
        Some(Instruction::OP_9XY0(x, y))
    } else if family == 0xA {
        Some(Instruction::OP_ANNN(nnn))
    } else if family == 0xB {
        Some(Instruction::OP_BNNN(nnn))
    } else if family == 0xC {
        Some(Instruction::OP_CXNN(x, nn))
    } else if family == 0xD {
        Some(Instruction::OP_DXYN(x, y, n))
    } else if family == 0xE {
        if nn == 0x9E {
            Some(Instruction::OP_EX9E(x))
        } else if nn == 0xA1 {
            Some(Instruction::OP_EXA1(x))
        } else {
            None
        }
    } else {
        decode_transfer(x, nn)
    }
}

/// Places a register index in the second digit and a byte in the low two
/// digits of a pattern whose low twelve bits leave room for them.
fn with_operands(pattern: u16, x: u8, low: u8) -> (v: u16)
    requires
        x < 0x10,
        pattern + x * 0x100 + low <= u16::MAX,
    ensures
        v == pattern + x * 0x100 + low,
{
    pattern + (x as u16) * 0x100 + (low as u16)
}

/// The decoder reads past one digit of `v`: the second digit in family
/// `0x0`, the fourth in families `0x5` and `0x9`. Where that digit is not
/// zero, `v` decodes but is not the opcode its instruction is written as.
pub open spec fn has_ignored_digit(v: u16) -> bool {
    ||| top_nibble(v) == 0x0 && second_nibble(v) != 0
    ||| (top_nibble(v) == 0x5 || top_nibble(v) == 0x9) && fourth_nibble(v) != 0
}

/// `v` with the digit that the decoder reads past set to zero.
pub open spec fn canonical(v: u16) -> int {
    if top_nibble(v) == 0x0 {
        (v % 0x100) as int
    } else if top_nibble(v) == 0x5 || top_nibble(v) == 0x9 {
        v - v % 0x10
    } else {
        v as int
    }
}

/// Decoding yields operands that fit their fields.
pub proof fn lemma_decode_wf(v: u16)
    ensures
        decode(v) matches Some(instruction) ==> instruction.wf(),
{
}

/// Decoding then encoding gives back the opcode, up to the digit that the
/// decoder reads past.
pub proof fn lemma_decode_encode_canonical(v: u16)
    ensures
        decode(v) matches Some(instruction) ==> instruction.encode() == canonical(v),
        !has_ignored_digit(v) ==> canonical(v) == v,
        has_ignored_digit(v) ==> canonical(v) != v,
{
    lemma_nibbles_compose(v);
}

/// Decoding then encoding reproduces every opcode that decodes and has no
/// ignored digit set.
pub proof fn lemma_decode_encode(v: u16)
    requires
        decode(v) is Some,
        !has_ignored_digit(v),
    ensures
        decode(v).unwrap().encode() == v,
{
    lemma_decode_encode_canonical(v);
}

/// Encoding then decoding reproduces every well-formed instruction, and the
/// encoding has no ignored digit set.
pub proof fn lemma_encode_decode(instruction: Instruction)
    requires
        instruction.wf(),
    ensures
        0 <= instruction.encode() <= u16::MAX,
        decode(instruction.encode() as u16) == Some(instruction),
        !has_ignored_digit(instruction.encode() as u16),
{
    match instruction {
        Instruction::OP_00E0 => lemma_digits(0x0, 0, 0xE, 0x0),
        Instruction::OP_00EE => lemma_digits(0x0, 0, 0xE, 0xE),
        Instruction::OP_1NNN(nnn) => lemma_address(0x1, nnn),
        Instruction::OP_2NNN(nnn) => lemma_address(0x2, nnn),
        Instruction::OP_3XNN(x, nn) => lemma_immediate(0x3, x, nn),
        Instruction::OP_4XNN(x, nn) => lemma_immediate(0x4, x, nn),
        Instruction::OP_5XY0(x, y) => lemma_digits(0x5, x, y, 0x0),
        Instruction::OP_6XNN(x, nn) => lemma_immediate(0x6, x, nn),
        Instruction::OP_7XNN(x, nn) => lemma_immediate(0x7, x, nn),
        Instruction::OP_8XY0(x, y) => lemma_digits(0x8, x, y, 0x0),
        Instruction::OP_8XY1(x, y) => lemma_digits(0x8, x, y, 0x1),
        Instruction::OP_8XY2(x, y) => lemma_digits(0x8, x, y, 0x2),
        Instruction::OP_8XY3(x, y) => lemma_digits(0x8, x, y, 0x3),
        Instruction::OP_8XY4(x, y) => lemma_digits(0x8, x, y, 0x4),
        Instruction::OP_8XY5(x, y) => lemma_digits(0x8, x, y, 0x5),
        Instruction::OP_8XY6(x, y) => lemma_digits(0x8, x, y, 0x6),
        Instruction::OP_8XY7(x, y) => lemma_digits(0x8, x, y, 0x7),
        Instruction::OP_8XYE(x, y) => lemma_digits(0x8, x, y, 0xE),
        Instruction::OP_9XY0(x, y) => lemma_digits(0x9, x, y, 0x0),
        Instruction::OP_ANNN(nnn) => lemma_address(0xA, nnn),
        Instruction::OP_BNNN(nnn) => lemma_address(0xB, nnn),
        Instruction::OP_CXNN(x, nn) => lemma_immediate(0xC, x, nn),
        Instruction::OP_DXYN(x, y, n) => lemma_digits(0xD, x, y, n),
        Instruction::OP_EX9E(x) => lemma_immediate(0xE, x, 0x9E),
        Instruction::OP_EXA1(x) => lemma_immediate(0xE, x, 0xA1),
        Instruction::OP_FX07(x) => lemma_immediate(0xF, x, 0x07),
        Instruction::OP_FX0A(x) => lemma_immediate(0xF, x, 0x0A),
        Instruction::OP_FX15(x) => lemma_immediate(0xF, x, 0x15),
        Instruction::OP_FX18(x) => lemma_immediate(0xF, x, 0x18),
        Instruction::OP_FX1E(x) => lemma_immediate(0xF, x, 0x1E),
        Instruction::OP_FX29(x) => lemma_immediate(0xF, x, 0x29),
        Instruction::OP_FX33(x) => lemma_immediate(0xF, x, 0x33),
        Instruction::OP_FX55(x) => lemma_immediate(0xF, x, 0x55),
        Instruction::OP_FX65(x) => lemma_immediate(0xF, x, 0x65),
    }
}

/// Four hexadecimal digits are the digits of the opcode they spell.
proof fn lemma_digits(family: u8, x: u8, y: u8, n: u8)
    requires
        family < 0x10,
        x < 0x10,
        y < 0x10,
        n < 0x10,
    ensures
        ({
            let v = (family * 0x1000 + x * 0x100 + y * 0x10 + n) as u16;
            &&& v == family * 0x1000 + x * 0x100 + y * 0x10 + n
            &&& top_nibble(v) == family
            &&& second_nibble(v) == x
            &&& third_nibble(v) == y
            &&& fourth_nibble(v) == n
            &&& low_byte(v) == y * 0x10 + n
        }),
{
    assert({
        let v = (family * 0x1000 + x * 0x100 + y * 0x10 + n) as u16;
        &&& v == family * 0x1000 + x * 0x100 + y * 0x10 + n
        &&& v / 0x1000 == family
        &&& (v / 0x100) % 0x10 == x
        &&& (v / 0x10) % 0x10 == y
        &&& v % 0x10 == n
        &&& v % 0x100 == y * 0x10 + n
    }) by (bit_vector)
        requires
            family < 0x10,
            x < 0x10,
            y < 0x10,
            n < 0x10,
    ;
}

/// A family digit, a register digit and a byte are the fields of the opcode
/// they spell.
proof fn lemma_immediate(family: u8, x: u8, nn: u8)
    requires
        family < 0x10,
        x < 0x10,
    ensures
        ({
            let v = (family * 0x1000 + x * 0x100 + nn) as u16;
            &&& v == family * 0x1000 + x * 0x100 + nn
            &&& top_nibble(v) == family
            &&& second_nibble(v) == x
            &&& low_byte(v) == nn
        }),
{
    assert({
        let v = (family * 0x1000 + x * 0x100 + nn) as u16;
        &&& v == family * 0x1000 + x * 0x100 + nn
        &&& v / 0x1000 == family
        &&& (v / 0x100) % 0x10 == x
        &&& v % 0x100 == nn
    }) by (bit_vector)
        requires
            family < 0x10,
            x < 0x10,
    ;
}

/// A family digit and a 12-bit address are the fields of the opcode they
/// spell.
proof fn lemma_address(family: u8, nnn: u16)
    requires
        family < 0x10,
        nnn < 0x1000,
    ensures
        ({
            let v = (family * 0x1000 + nnn) as u16;
            &&& v == family * 0x1000 + nnn
            &&& top_nibble(v) == family
            &&& low_12_bits(v) == nnn
        }),
{
    assert({
        let v = (family * 0x1000 + nnn) as u16;
        &&& v == family * 0x1000 + nnn
        &&& v / 0x1000 == family
        &&& v % 0x1000 == nnn
    }) by (bit_vector)
        requires
            family < 0x10,
            nnn < 0x1000,
    ;
}

/// The opcodes that do not decode: family `0x0` other than `..E0` and
/// `..EE`, family `0x8` with a fourth digit from `8` to `D` or `F`, family
/// `0xE` other than `..9E` and `..A1`, and family `0xF` outside its nine low
/// bytes.
pub proof fn lemma_unknown_opcodes(v: u16)
    ensures
        decode(v) is None <==> {
            ||| top_nibble(v) == 0x0 && low_byte(v) != 0xE0 && low_byte(v) != 0xEE
            ||| top_nibble(v) == 0x8 && 0x8 <= fourth_nibble(v) && fourth_nibble(v) != 0xE
            ||| top_nibble(v) == 0xE && low_byte(v) != 0x9E && low_byte(v) != 0xA1
            ||| top_nibble(v) == 0xF && low_byte(v) != 0x07 && low_byte(v) != 0x0A && low_byte(v)
                != 0x15 && low_byte(v) != 0x18 && low_byte(v) != 0x1E && low_byte(v) != 0x29
                && low_byte(v) != 0x33 && low_byte(v) != 0x55 && low_byte(v) != 0x65
        },
{
}

} // verus!
