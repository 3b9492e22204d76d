//! The mathematical model of the machine and the meaning of each instruction.
//!
//! Everything here is specification: a `Machine` is the abstract state, and
//! `Machine::execute` is the state after one instruction.
//!
//! Where the platform leaves behaviour open, the model fixes it:
//!
//! - A call with a full stack and a return with an empty one are faults.
//!   A faulting instruction changes nothing, and the step reports the fault.
//! - Memory addresses wrap at the end of memory. This holds for the bytes
//!   read and written through the index register, which is 16 bits wide and
//!   may run past `0xFFF`, and for the fetch at the program counter.
//! - The program counter and the index register wrap at 16 bits.
//! - A key index of 16 or more names no key, and counts as a key that is
//!   not down.
//! - Where several keys are down, a wait for a key takes the lowest.

use vstd::prelude::*;

use crate::font::GLYPH_HEIGHT;
use crate::instruction::{decode, Instruction};
use crate::sprite::draw_sprite;

verus! {

/// Bytes of addressable memory.
pub const MEMORY_SIZE: usize = 4096;

/// Address at which programs are loaded and at which execution starts.
pub const PROGRAM_START: u16 = 0x200;

/// Largest program that fits between `PROGRAM_START` and the end of memory.
pub const MAX_PROGRAM_SIZE: usize = 3584;

/// Number of general-purpose registers.
pub const REGISTER_COUNT: usize = 16;

/// Index of `VF`, the carry, borrow and collision flag.
pub const FLAG: u8 = 0xF;

/// Number of return addresses the call stack holds.
pub const STACK_SIZE: u8 = 16;

/// Number of keys on the keypad.
pub const KEY_COUNT: u8 = 16;

/// Screen width in pixels.
pub const SCREEN_WIDTH: usize = 64;

/// Screen height in pixels.
pub const SCREEN_HEIGHT: usize = 32;

/// Number of pixels in the framebuffer, which is stored row by row.
pub const SCREEN_SIZE: usize = 2048;

/// Where the glyph for a hexadecimal digit starts in memory.
pub open spec fn glyph_address(digit: u8) -> u16 {
    (digit * GLYPH_HEIGHT) as u16
}

/// Why a step did not execute.
#[derive(Clone, Copy, Debug, PartialEq, Eq, Structural)]
pub enum Fault {
    /// The opcode at the program counter denotes no instruction.
    UnknownOpcode(u16),
    /// A call with all sixteen stack slots in use.
    StackOverflow,
    /// A return with no call outstanding.
    StackUnderflow,
}

/// The abstract machine state.
#[verifier::ext_equal]
pub struct Machine {
    /// `V0` to `VF`.
    pub regs: Seq<u8>,
    /// The index register `I`.
    pub i: u16,
    pub delay_timer: u8,
    pub sound_timer: u8,
    pub memory: Seq<u8>,
    /// Return addresses; slots below `sp` are in use.
    pub stack: Seq<u16>,
    pub pc: u16,
    pub sp: u8,
    /// One byte per pixel, row by row; 1 is lit.
    pub vram: Seq<u8>,
    /// One byte per key; 1 is down.
    pub keys: Seq<u8>,
}

impl Machine {
    /// The components have their fixed sizes, the stack pointer is within
    /// the stack, and every pixel is 0 or 1.
    pub open spec fn wf(self) -> bool {
        &&& self.regs.len() == REGISTER_COUNT
        &&& self.memory.len() == MEMORY_SIZE
        &&& self.stack.len() == STACK_SIZE
        &&& self.vram.len() == SCREEN_SIZE
        &&& self.keys.len() == KEY_COUNT
        &&& self.sp <= STACK_SIZE
        &&& forall|k: int| 0 <= k < SCREEN_SIZE ==> #[trigger] self.vram[k] <= 1
    }

    /// The value of register `x`.
    pub open spec fn reg(self, x: u8) -> u8 {
        self.regs[x as int]
    }

    pub open spec fn set_reg(self, x: u8, value: u8) -> Machine {
        Machine { regs: self.regs.update(x as int, value), ..self }
    }

    pub open spec fn set_flag(self, value: u8) -> Machine {
        self.set_reg(FLAG, value)
    }

    /// The byte at `address`, which wraps at the end of memory.
    pub open spec fn byte_at(self, address: int) -> u8 {
        self.memory[address % (MEMORY_SIZE as int)]
    }

    /// Stores `value` at `address`, which wraps at the end of memory.
    pub open spec fn set_byte(self, address: int, value: u8) -> Machine {
        Machine { memory: self.memory.update(address % (MEMORY_SIZE as int), value), ..self }
    }

    /// The pixel in column `x` of row `y`.
    pub open spec fn pixel(self, x: int, y: int) -> u8 {
        self.vram[y * (SCREEN_WIDTH as int) + x]
    }

    /// Key `key` exists and is down.
    pub open spec fn key_down(self, key: u8) -> bool {
        key < KEY_COUNT && self.keys[key as int] == 1
    }

    /// The lowest key that is down, if any is.
    pub open spec fn pressed_key(self) -> Option<u8> {
        if exists|key: u8| self.key_down(key) {
            Some(
                choose|key: u8|
                    self.key_down(key) && forall|lower: u8| lower < key ==> !self.key_down(lower),
            )
        } else {
            None
        }
    }

    /// The program counter moves to the next instruction.
    pub open spec fn advance(self) -> Machine {
        Machine { pc: ((self.pc + 2) % 0x10000) as u16, ..self }
    }

    /// The program counter moves past the next instruction if `condition`
    /// holds, and to it otherwise.
    pub open spec fn skip_if(self, condition: bool) -> Machine {
        if condition {
            self.advance().advance()
        } else {
            self.advance()
        }
    }

    pub open spec fn jump(self, target: u16) -> Machine {
        Machine { pc: target, ..self }
    }

    /// Every pixel is off.
    pub open spec fn clear_screen(self) -> Machine {
        Machine { vram: Seq::new(SCREEN_SIZE as nat, |k: int| 0u8), ..self }
    }

    /// The program counter goes on the stack and moves to `target`.
    pub open spec fn call(self, target: u16) -> Machine {
        Machine {
            stack: self.stack.update(self.sp as int, self.pc),
            sp: (self.sp + 1) as u8,
            pc: target,
            ..self
        }
    }

    /// The program counter moves to the instruction after the most recent
    /// call, whose stack slot is freed.
    pub open spec fn ret(self) -> Machine {
        Machine { sp: (self.sp - 1) as u8, pc: self.stack[self.sp - 1], ..self }.advance()
    }

    /// `VX` becomes `VX + VY` modulo 256 and `VF` the carry.
    pub open spec fn add_registers(self, x: u8, y: u8) -> Machine {
        let sum = self.reg(x) + self.reg(y);
        self.set_reg(x, (sum % 0x100) as u8).set_flag(
            if sum > 0xFF {
                1
            } else {
                0
            },
        )
    }

    /// `target` becomes `minuend - subtrahend` modulo 256 and `VF` is 1 iff
    /// the minuend is greater than the subtrahend.
    pub open spec fn subtract(self, target: u8, minuend: u8, subtrahend: u8) -> Machine {
        self.set_reg(target, ((minuend - subtrahend) % 0x100) as u8).set_flag(
            if minuend > subtrahend {
                1
            } else {
                0
            },
        )
    }

    /// `VX` becomes `VY` shifted right by one and `VF` the low bit of `VY`.
    pub open spec fn shift_right(self, x: u8, y: u8) -> Machine {
        let source = self.reg(y);
        self.set_reg(x, source / 2).set_flag(source % 2)
    }

    /// `VX` becomes `VY` shifted left by one and `VF` the high bit of `VY`.
    pub open spec fn shift_left(self, x: u8, y: u8) -> Machine {
        let source = self.reg(y);
        self.set_reg(x, ((source * 2) % 0x100) as u8).set_flag(source / 0x80)
    }

    /// If a key is down, `VX` becomes the lowest such key and the program
    /// counter advances; otherwise nothing changes, so that the same
    /// instruction runs again on the next step.
    pub open spec fn wait_for_key(self, x: u8) -> Machine {
        match self.pressed_key() {
            Some(key) => self.set_reg(x, key).advance(),
            None => self,
        }
    }

    /// `VX` is written in decimal to the three bytes at `I`: hundreds,
    /// tens, ones.
    pub open spec fn store_decimal(self, x: u8) -> Machine {
        let value = self.reg(x);
        self.set_byte(self.i as int, value / 100).set_byte(self.i + 1, (value / 10) % 10).set_byte(
            self.i + 2,
            value % 10,
        )
    }

    /// The index register moves forward by `count`, wrapping at 16 bits.
    pub open spec fn bump_index(self, count: int) -> Machine {
        Machine { i: ((self.i + count) % 0x10000) as u16, ..self }
    }

    /// `V0..=VX` are copied to the bytes at `I..=I + X`, and `I` moves past
    /// them.
    pub open spec fn store_registers(self, x: u8) -> Machine {
        Machine {
            memory: Seq::new(
                MEMORY_SIZE as nat,
                |address: int|
                    {
                        let k = (address - self.i) % (MEMORY_SIZE as int);
                        if k <= x {
                            self.regs[k]
                        } else {
                            self.memory[address]
                        }
                    },
            ),
            ..self
        }.bump_index(x + 1)
    }

    /// `V0..=VX` are loaded from the bytes at `I..=I + X`, and `I` moves
    /// past them.
    pub open spec fn load_registers(self, x: u8) -> Machine {
        Machine {
            regs: Seq::new(
                REGISTER_COUNT as nat,
                |k: int|
                    if k <= x {
                        self.byte_at(self.i + k)
                    } else {
                        self.regs[k]
                    },
            ),
            ..self
        }.bump_index(x + 1)
    }

    /// The fault that keeps `instruction` from executing in this state, if
    /// there is one.
    pub open spec fn fault(self, instruction: Instruction) -> Option<Fault> {
        match instruction {
            Instruction::OP_00EE => if self.sp == 0 {
                Some(Fault::StackUnderflow)
            } else {
                None
            },
            Instruction::OP_2NNN(_) => if self.sp >= STACK_SIZE {
                Some(Fault::StackOverflow)
            } else {
                None
            },
            _ => None,
        }
    }

    /// The state after `instruction`, where no fault keeps it from
    /// executing. `random` is the byte drawn for `OP_CXNN`; no other
    /// instruction reads it.
    pub open spec fn execute(self, instruction: Instruction, random: u8) -> Machine {
        match instruction {
            Instruction::OP_00E0 => self.clear_screen().advance(),
            Instruction::OP_00EE => self.ret(),
            Instruction::OP_1NNN(nnn) => self.jump(nnn),
            Instruction::OP_2NNN(nnn) => self.call(nnn),
            Instruction::OP_3XNN(x, nn) => self.skip_if(self.reg(x) == nn),
            Instruction::OP_4XNN(x, nn) => self.skip_if(self.reg(x) != nn),
            Instruction::OP_5XY0(x, y) => self.skip_if(self.reg(x) == self.reg(y)),
            Instruction::OP_6XNN(x, nn) => self.set_reg(x, nn).advance(),
            Instruction::OP_7XNN(x, nn) => self.set_reg(
                x,
                ((self.reg(x) + nn) % 0x100) as u8,
            ).advance(),
            Instruction::OP_8XY0(x, y) => self.set_reg(x, self.reg(y)).advance(),
            Instruction::OP_8XY1(x, y) => self.set_reg(x, self.reg(x) | self.reg(y)).advance(),
            Instruction::OP_8XY2(x, y) => self.set_reg(x, self.reg(x) & self.reg(y)).advance(),
            Instruction::OP_8XY3(x, y) => self.set_reg(x, self.reg(x) ^ self.reg(y)).advance(),
            Instruction::OP_8XY4(x, y) => self.add_registers(x, y).advance(),
            Instruction::OP_8XY5(x, y) => self.subtract(x, self.reg(x), self.reg(y)).advance(),
            Instruction::OP_8XY6(x, y) => self.shift_right(x, y).advance(),
            Instruction::OP_8XY7(x, y) => self.subtract(x, self.reg(y), self.reg(x)).advance(),
            Instruction::OP_8XYE(x, y) => self.shift_left(x, y).advance(),
            Instruction::OP_9XY0(x, y) => self.skip_if(self.reg(x) != self.reg(y)),
            Instruction::OP_ANNN(nnn) => Machine { i: nnn, ..self }.advance(),
            Instruction::OP_BNNN(nnn) => self.jump(((nnn + self.reg(0)) % 0x10000) as u16),
            Instruction::OP_CXNN(x, nn) => self.set_reg(x, random & nn).advance(),
            Instruction::OP_DXYN(x, y, n) => draw_sprite(self, x, y, n).advance(),
            Instruction::OP_EX9E(x) => self.skip_if(self.key_down(self.reg(x))),
            Instruction::OP_EXA1(x) => self.skip_if(!self.key_down(self.reg(x))),
            Instruction::OP_FX07(x) => self.set_reg(x, self.delay_timer).advance(),
            Instruction::OP_FX0A(x) => self.wait_for_key(x),
            Instruction::OP_FX15(x) => Machine { delay_timer: self.reg(x), ..self }.advance(),
            Instruction::OP_FX18(x) => Machine { sound_timer: self.reg(x), ..self }.advance(),
            Instruction::OP_FX1E(x) => self.bump_index(self.reg(x) as int).advance(),
            Instruction::OP_FX29(x) => Machine {
                i: glyph_address(self.reg(x) % 0x10),
                ..self
            }.advance(),
            Instruction::OP_FX33(x) => self.store_decimal(x).advance(),
            Instruction::OP_FX55(x) => self.store_registers(x).advance(),
            Instruction::OP_FX65(x) => self.load_registers(x).advance(),
        }
    }

    /// The opcode at the program counter: two bytes, high byte first.
    pub open spec fn fetch(self) -> u16 {
        (self.byte_at(self.pc as int) * 0x100 + self.byte_at(self.pc + 1)) as u16
    }

    /// The start of a step: the key state is replaced and each timer that
    /// is not zero goes down by one.
    pub open spec fn begin_tick(self, keys: Seq<u8>) -> Machine {
        Machine {
            keys: keys,
            delay_timer: if self.delay_timer > 0 {
                (self.delay_timer - 1) as u8
            } else {
                0
            },
            sound_timer: if self.sound_timer > 0 {
                (self.sound_timer - 1) as u8
            } else {
                0
            },
            ..self
        }
    }

    /// The state after an attempt to execute `instruction`: unchanged where
    /// a fault keeps it from executing.
    pub open spec fn step(self, instruction: Instruction, random: u8) -> Machine {
        if self.fault(instruction) is Some {
            self
        } else {
            self.execute(instruction, random)
        }
    }

    /// What an attempt to execute `instruction` reports.
    pub open spec fn outcome(self, instruction: Instruction) -> Result<(), Fault> {
        match self.fault(instruction) {
            Some(fault) => Err(fault),
            None => Ok(()),
        }
    }

    /// The instruction at the program counter, if the opcode there denotes
    /// one.
    pub open spec fn next_instruction(self) -> Option<Instruction> {
        decode(self.fetch())
    }

    /// The state after one step: timers and keys are updated, then the
    /// instruction at the program counter is attempted. An opcode that
    /// denotes no instruction changes nothing further.
    pub open spec fn tick(self, keys: Seq<u8>, random: u8) -> Machine {
        let started = self.begin_tick(keys);
        match started.next_instruction() {
            Some(instruction) => started.step(instruction, random),
            None => started,
        }
    }

    /// What one step reports.
    pub open spec fn tick_outcome(self, keys: Seq<u8>) -> Result<(), Fault> {
        let started = self.begin_tick(keys);
        match started.next_instruction() {
            Some(instruction) => started.outcome(instruction),
            None => Err(Fault::UnknownOpcode(started.fetch())),
        }
    }
}

} // verus!
