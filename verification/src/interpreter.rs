//! The executable machine: its state, and the fetch-decode-execute step.

use vstd::prelude::*;

use crate::font::{FONT_SET, FONT_SIZE, GLYPH_HEIGHT};
use crate::instruction::{Address, Byte, IRegister, Instruction, Register};
use crate::machine::{Fault, Machine, MAX_PROGRAM_SIZE, PROGRAM_START};
use crate::screen::{lit_cells, PIXEL_SIZE};
use crate::sprite::{draw_sprite, plot, plot_pixel};

verus! {

/// The machine state. Its view is a `Machine`.
pub struct Interpreter {
    pub regs: [Register; 16],
    pub i: IRegister,
    pub delay_timer: u8,
    pub sound_timer: u8,
    pub memory: [Byte; 4096],
    pub stack: [Address; 16],
    pub pc: Address,
    pub sp: u8,
    pub vram: [u8; 2048],
    pub keys: [u8; 16],
}

impl View for Interpreter {
    type V = Machine;

    open spec fn view(&self) -> Machine {
        Machine {
            regs: self.regs@,
            i: self.i,
            delay_timer: self.delay_timer,
            sound_timer: self.sound_timer,
            memory: self.memory@,
            stack: self.stack@,
            pc: self.pc,
            sp: self.sp,
            vram: self.vram@,
            keys: self.keys@,
        }
    }
}

/// The state in which execution of `rom` starts: the glyph table at
/// address 0, the program at `0x200`, the program counter at `0x200`, and
/// everything else zero.
pub open spec fn initial_machine(rom: Seq<u8>) -> Machine {
    Machine {
        regs: Seq::new(16, |k: int| 0u8),
        i: 0,
        delay_timer: 0,
        sound_timer: 0,
        memory: Seq::new(
            4096,
            |address: int|
                if address < FONT_SIZE {
                    FONT_SET@[address]
                } else if PROGRAM_START <= address < PROGRAM_START + rom.len() {
                    rom[address - PROGRAM_START]
                } else {
                    0u8
                },
        ),
        stack: Seq::new(16, |k: int| 0u16),
        pc: PROGRAM_START,
        sp: 0,
        vram: Seq::new(2048, |k: int| 0u8),
        keys: Seq::new(16, |k: int| 0u8),
    }
}

impl Interpreter {
    /// The state is well formed: see `Machine::wf`.
    pub open spec fn wf(&self) -> bool {
        self@.wf()
    }

    /// A machine ready to run `rom`, which must fit in memory.
    pub fn new(rom: Vec<u8>) -> (r: Self)
        requires
            rom.len() <= MAX_PROGRAM_SIZE,
        ensures
            r@ == initial_machine(rom@),
            r.wf(),
    {
        let start = PROGRAM_START as usize;
        let mut memory = [0u8;4096];
        let mut k: usize = 0;
        while k < rom.len()
            invariant
                start == PROGRAM_START,
                k <= rom.len() <= MAX_PROGRAM_SIZE,
                forall|a: int| 0 <= a < start ==> memory@[a] == 0,
                forall|a: int| start <= a < start + k ==> memory@[a] == rom@[a - start],
                forall|a: int| start + k <= a < 4096 ==> memory@[a] == 0,
            decreases rom.len() - k,
        {
            memory[start + k] = rom[k];
            k += 1;
        }
        let mut g: usize = 0;
        while g < FONT_SIZE
            invariant
                start == PROGRAM_START,
                g <= FONT_SIZE,
                rom.len() <= MAX_PROGRAM_SIZE,
                forall|a: int| 0 <= a < g ==> memory@[a] == FONT_SET@[a],
                forall|a: int| g <= a < start ==> memory@[a] == 0,
                forall|a: int| start <= a < start + rom.len() ==> memory@[a] == rom@[a - start],
                forall|a: int| start + rom.len() <= a < 4096 ==> memory@[a] == 0,
            decreases FONT_SIZE - g,
        {
            memory[g] = FONT_SET[g];
            g += 1;
        }
        Interpreter {
            regs: [0;16],
            i: 0,
            delay_timer: 0,
            sound_timer: 0,
            memory,
            stack: [0;16],
            pc: PROGRAM_START,
            sp: 0,
            vram: [0;2048],
            keys: [0;16],
        }
    }

    /// The opcode at the program counter, two bytes with the high byte
    /// first. Both addresses wrap at the end of memory.
    pub fn get_optcode(&self) -> (opcode: u16)
        ensures
            opcode == self@.fetch(),
    {
        let pc = self.pc as usize;
        let high = self.memory[pc % 4096];
        let low = self.memory[(pc + 1) % 4096];
        assert(((high as u16) << 8) | (low as u16) == high * 0x100 + low) by (bit_vector);
        ((high as u16) << 8) | (low as u16)
    }

    /// Moves the program counter to the next instruction.
    pub fn pc_next(&mut self)
        ensures
            final(self)@ == old(self)@.advance(),
    {
        self.pc = self.pc.wrapping_add(2);
    }

    fn skip_if(&mut self, condition: bool)
        ensures
            final(self)@ == old(self)@.skip_if(condition),
    {
        if condition {
            self.pc_next();
        }
        self.pc_next();
    }

    fn set_reg(&mut self, x: Register, value: u8)
        requires
            x < 16,
        ensures
            final(self)@ == old(self)@.set_reg(x, value),
    {
        self.regs[x as usize] = value;
    }

    fn clear_screen(&mut self)
        ensures
            final(self)@ == old(self)@.clear_screen(),
    {
        let mut index: usize = 0;
        while index < 2048
            invariant
                index <= 2048,
                forall|k: int| 0 <= k < index ==> self.vram@[k] == 0,
                self@ == (Machine { vram: self.vram@, ..old(self)@ }),
            decreases 2048 - index,
        {
            self.vram[index] = 0;
            index += 1;
        }
    }

    fn call(&mut self, target: Address)
        requires
            old(self).sp < 16,
        ensures
            final(self)@ == old(self)@.call(target),
    {
        self.stack[self.sp as usize] = self.pc;
        self.sp += 1;
        self.pc = target;
    }

    fn ret(&mut self)
        requires
            0 < old(self).sp <= 16,
        ensures
            final(self)@ == old(self)@.ret(),
    {
        self.sp -= 1;
        self.pc = self.stack[self.sp as usize];
        self.pc_next();
    }

    fn add_registers(&mut self, x: Register, y: Register)
        requires
            x < 16,
            y < 16,
        ensures
            final(self)@ == old(self)@.add_registers(x, y),
    {
        let a = self.regs[x as usize];
        let b = self.regs[y as usize];
        self.regs[x as usize] = a.wrapping_add(b);
        self.regs[0xF] = if a as u16 + b as u16 > 0xFF {
            1
        } else {
            0
        };
    }

    fn subtract(&mut self, target: Register, minuend: u8, subtrahend: u8)
        requires
            target < 16,
        ensures
            final(self)@ == old(self)@.subtract(target, minuend, subtrahend),
    {
        self.regs[target as usize] = minuend.wrapping_sub(subtrahend);
        self.regs[0xF] = if minuend > subtrahend {
            1
        } else {
            0
        };
    }

    fn shift_right(&mut self, x: Register, y: Register)
        requires
            x < 16,
            y < 16,
        ensures
            final(self)@ == old(self)@.shift_right(x, y),
    {
        let source = self.regs[y as usize];
        assert(source >> 1 == source / 2 && source & 1 == source % 2) by (bit_vector);
        self.regs[x as usize] = source >> 1;
        self.regs[0xF] = source & 1;
    }

    fn shift_left(&mut self, x: Register, y: Register)
        requires
            x < 16,
            y < 16,
        ensures
            final(self)@ == old(self)@.shift_left(x, y),
    {
        let source = self.regs[y as usize];
        assert(source << 1 == (source * 2) % 0x100 && source >> 7 == source / 0x80)
            by (bit_vector);
        self.regs[x as usize] = source << 1;
        self.regs[0xF] = source >> 7;
    }

    fn key_down(&self, key: u8) -> (down: bool)
        ensures
            down == self@.key_down(key),
    {
        key < 16 && self.keys[key as usize] == 1
    }

    /// The lowest key that is down, if any is.
    fn pressed_key(&self) -> (found: Option<u8>)
        ensures
            found == self@.pressed_key(),
    {
        let mut key: u8 = 0;
        while key < 16
            invariant
                key <= 16,
                forall|lower: u8| lower < key ==> !self@.key_down(lower),
            decreases 16 - key,
        {
            if self.keys[key as usize] == 1 {
                assert(self@.key_down(key));
                return Some(key);
            }
            key += 1;
        }
        None
    }

    fn wait_for_key(&mut self, x: Register)
        requires
            x < 16,
        ensures
            final(self)@ == old(self)@.wait_for_key(x),
    {
        match self.pressed_key() {
            Some(key) => {
                self.set_reg(x, key);
                self.pc_next();
            },
            None => {},
        }
    }

    fn set_byte(&mut self, address: u16, offset: u16, value: u8)
        requires
            offset < 16,
        ensures
            final(self)@ == old(self)@.set_byte(address + offset, value),
    {
        self.memory[(address as usize + offset as usize) % 4096] = value;
    }

    fn store_decimal(&mut self, x: Register)
        requires
            x < 16,
        ensures
            final(self)@ == old(self)@.store_decimal(x),
    {
        let value = self.regs[x as usize];
        let start = self.i;
        self.set_byte(start, 0, value / 100);
        self.set_byte(start, 1, (value / 10) % 10);
        self.set_byte(start, 2, value % 10);
    }

    fn bump_index(&mut self, count: u16)
        ensures
            final(self)@ == old(self)@.bump_index(count as int),
    {
        self.i = self.i.wrapping_add(count);
    }

    fn store_registers(&mut self, x: Register)
        requires
            x < 16,
        ensures
            final(self)@ == old(self)@.store_registers(x),
    {
        let start = self.i as usize;
        let mut k: usize = 0;
        while k <= x as usize
            invariant
                x < 16,
                k <= x + 1,
                start == old(self).i,
                self@ == (Machine { memory: self.memory@, ..old(self)@ }),
                forall|address: int|
                    0 <= address < 4096 ==> self.memory@[address] == {
                        let offset = (address - start) % 4096;
                        if offset < k {
                            old(self).regs@[offset]
                        } else {
                            old(self).memory@[address]
                        }
                    },
            decreases x + 1 - k,
        {
            self.memory[(start + k) % 4096] = self.regs[k];
            k += 1;
        }
        self.bump_index(x as u16 + 1);
    }

    fn load_registers(&mut self, x: Register)
        requires
            x < 16,
        ensures
            final(self)@ == old(self)@.load_registers(x),
    {
        let start = self.i as usize;
        let mut k: usize = 0;
        while k <= x as usize
            invariant
                x < 16,
                k <= x + 1,
                start == old(self).i,
                self@ == (Machine { regs: self.regs@, ..old(self)@ }),
                forall|j: int|
                    0 <= j < 16 ==> self.regs@[j] == if j < k {
                        old(self)@.byte_at(start + j)
                    } else {
                        old(self).regs@[j]
                    },
            decreases x + 1 - k,
        {
            self.regs[k] = self.memory[(start + k) % 4096];
            k += 1;
        }
        self.bump_index(x as u16 + 1);
    }

    /// Combines one sprite pixel with the screen.
    fn plot_pixel(&mut self, x: Register, y: Register, row: u8, column: u8)
        requires
            x < 16,
            y < 16,
            row < 16,
            column < 8,
            old(self).wf(),
        ensures
            final(self)@ == plot_pixel(old(self)@, x, y, row as int, column as int),
            final(self).wf(),
    {
        let px = (self.regs[x as usize] as usize + column as usize) % 64;
        let py = (self.regs[y as usize] as usize + row as usize) % 32;
        let line = self.memory[(self.i as usize + row as usize) % 4096];
        let shift: u8 = 7 - column;
        let color = (line >> shift) & 1;
        let target = py * 64 + px;
        let lit = self.vram[target];
        assert(lit <= 1 && color <= 1 ==> lit ^ color <= 1) by (bit_vector);
        assert((line >> shift) & 1 <= 1) by (bit_vector);
        self.regs[0xF] = self.regs[0xF] | (color & lit);
        self.vram[target] = lit ^ color;
    }

    fn draw_sprite(&mut self, x: Register, y: Register, n: u8)
        requires
            x < 16,
            y < 16,
            n < 16,
            old(self).wf(),
        ensures
            final(self)@ == draw_sprite(old(self)@, x, y, n),
            final(self).wf(),
    {
        self.regs[0xF] = 0;
        let mut row: u8 = 0;
        while row < n
            invariant
                x < 16,
                y < 16,
                row <= n < 16,
                self.wf(),
                self@ == plot(old(self)@, x, y, 8 * row as nat),
            decreases n - row,
        {
            let mut column: u8 = 0;
            while column < 8
                invariant
                    x < 16,
                    y < 16,
                    row < n < 16,
                    column <= 8,
                    self.wf(),
                    self@ == plot(old(self)@, x, y, (8 * row + column) as nat),
                decreases 8 - column,
            {
                self.plot_pixel(x, y, row, column);
                column += 1;
            }
            row += 1;
        }
    }

    /// Executes `instruction`, with `random` as the byte that `OP_CXNN`
    /// draws. On a fault the state is left as it was.
    pub fn execute(&mut self, instruction: &Instruction, random: u8) -> (r: Result<(), Fault>)
        requires
            old(self).wf(),
            instruction.wf(),
        ensures
            r == old(self)@.outcome(*instruction),
            final(self)@ == old(self)@.step(*instruction, random),
            final(self).wf(),
    {
        match *instruction {
            Instruction::OP_00E0 => {
                self.clear_screen();
                self.pc_next();
            },
            Instruction::OP_00EE => {
                if self.sp == 0 {
                    return Err(Fault::StackUnderflow);
                }
                self.ret();
            },
            Instruction::OP_1NNN(nnn) => {
                self.pc = nnn;
            },
            Instruction::OP_2NNN(nnn) => {
                if self.sp >= 16 {
                    return Err(Fault::StackOverflow);
                }
                self.call(nnn);
            },
            Instruction::OP_3XNN(x, nn) => {
                let taken = self.regs[x as usize] == nn;
                self.skip_if(taken);
            },
            Instruction::OP_4XNN(x, nn) => {
                let taken = self.regs[x as usize] != nn;
                self.skip_if(taken);
            },
            Instruction::OP_5XY0(x, y) => {
                let taken = self.regs[x as usize] == self.regs[y as usize];
                self.skip_if(taken);
            },
            Instruction::OP_6XNN(x, nn) => {
                self.set_reg(x, nn);
                self.pc_next();
            },
            Instruction::OP_7XNN(x, nn) => {
                let sum = self.regs[x as usize].wrapping_add(nn);
                self.set_reg(x, sum);
                self.pc_next();
            },
            Instruction::OP_8XY0(x, y) => {
                let value = self.regs[y as usize];
                self.set_reg(x, value);
                self.pc_next();
            },
            Instruction::OP_8XY1(x, y) => {
                let value = self.regs[x as usize] | self.regs[y as usize];
                self.set_reg(x, value);
                self.pc_next();
            },
            Instruction::OP_8XY2(x, y) => {
                let value = self.regs[x as usize] & self.regs[y as usize];
                self.set_reg(x, value);
                self.pc_next();
            },
            Instruction::OP_8XY3(x, y) => {
                let value = self.regs[x as usize] ^ self.regs[y as usize];
                self.set_reg(x, value);
                self.pc_next();
            },
            Instruction::OP_8XY4(x, y) => {
                self.add_registers(x, y);
                self.pc_next();
            },
            Instruction::OP_8XY5(x, y) => {
                let minuend = self.regs[x as usize];
                let subtrahend = self.regs[y as usize];
                self.subtract(x, minuend, subtrahend);
                self.pc_next();
            },
            Instruction::OP_8XY6(x, y) => {
                self.shift_right(x, y);
                self.pc_next();
            },
            Instruction::OP_8XY7(x, y) => {
                let minuend = self.regs[y as usize];
                let subtrahend = self.regs[x as usize];
                self.subtract(x, minuend, subtrahend);
                self.pc_next();
            },
            Instruction::OP_8XYE(x, y) => {
                self.shift_left(x, y);
                self.pc_next();
            },
            Instruction::OP_9XY0(x, y) => {
                let taken = self.regs[x as usize] != self.regs[y as usize];
                self.skip_if(taken);
            },
            Instruction::OP_ANNN(nnn) => {
                self.i = nnn;
                self.pc_next();
            },
            Instruction::OP_BNNN(nnn) => {
                self.pc = nnn + self.regs[0] as u16;
            },
            Instruction::OP_CXNN(x, nn) => {
                self.set_reg(x, random & nn);
                self.pc_next();
            },
            Instruction::OP_DXYN(x, y, n) => {
                self.draw_sprite(x, y, n);
                self.pc_next();
            },
            Instruction::OP_EX9E(x) => {
                let taken = self.key_down(self.regs[x as usize]);
                self.skip_if(taken);
            },
            Instruction::OP_EXA1(x) => {
                let taken = !self.key_down(self.regs[x as usize]);
                self.skip_if(taken);
            },
            Instruction::OP_FX07(x) => {
                let value = self.delay_timer;
                self.set_reg(x, value);
                self.pc_next();
            },
            Instruction::OP_FX0A(x) => {
                self.wait_for_key(x);
            },
            Instruction::OP_FX15(x) => {
                self.delay_timer = self.regs[x as usize];
                self.pc_next();
            },
            Instruction::OP_FX18(x) => {
                self.sound_timer = self.regs[x as usize];
                self.pc_next();
            },
            Instruction::OP_FX1E(x) => {
                let count = self.regs[x as usize] as u16;
                self.bump_index(count);
                self.pc_next();
            },
            Instruction::OP_FX29(x) => {
                let digit = self.regs[x as usize] % 16;
                self.i = digit as u16 * GLYPH_HEIGHT;
                self.pc_next();
            },
            Instruction::OP_FX33(x) => {
                self.store_decimal(x);
                self.pc_next();
            },
            Instruction::OP_FX55(x) => {
                self.store_registers(x);
                self.pc_next();
            },
            Instruction::OP_FX65(x) => {
                self.load_registers(x);
                self.pc_next();
            },
        }
        Ok(())
    }

    /// Executes `instruction`, drawing a random byte where it is `OP_CXNN`.
    /// On a fault the state is left as it was.
    pub fn run_instruction(&mut self, instruction: &Instruction) -> (r: Result<(), Fault>)
        requires
            old(self).wf(),
            instruction.wf(),
        ensures
            r == old(self)@.outcome(*instruction),
            exists|random: u8| final(self)@ == old(self)@.step(*instruction, random),
            !(*instruction is OP_CXNN) ==> final(self)@ == old(self)@.step(*instruction, 0),
            final(self).wf(),
    {
        let random = match *instruction {
            Instruction::OP_CXNN(_, _) => random_byte(),
            _ => 0,
        };
        self.execute(instruction, random)
    }

    /// One step: the key state is replaced by `keys`, each timer that is
    /// not zero goes down by one, and the instruction at the program
    /// counter is executed. Where the opcode there denotes no instruction,
    /// or a fault keeps the instruction from executing, the step reports
    /// it and changes nothing beyond keys and timers.
    pub fn tick(&mut self, keys: [u8; 16]) -> (r: Result<(), Fault>)
        requires
            old(self).wf(),
        ensures
            r == old(self)@.tick_outcome(keys@),
            exists|random: u8| final(self)@ == old(self)@.tick(keys@, random),
            !(old(self)@.begin_tick(keys@).next_instruction() matches Some(instruction)
                && instruction is OP_CXNN) ==> final(self)@ == old(self)@.tick(keys@, 0),
            final(self).wf(),
    {
        self.keys = keys;
        if self.delay_timer > 0 {
            self.delay_timer -= 1;
        }
        if self.sound_timer > 0 {
            self.sound_timer -= 1;
        }
        let opcode = self.get_optcode();
        match Instruction::new(opcode) {
            Some(instruction) => {
                let ghost started = self@;
                let r = self.run_instruction(&instruction);
                proof {
                    let random = choose|random: u8| self@ == started.step(instruction, random);
                    assert(self@ == old(self)@.tick(keys@, random));
                }
                r
            },
            None => {
                assert(self@ == old(self)@.tick(keys@, 0));
                Err(Fault::UnknownOpcode(opcode))
            },
        }
    }

    /// The squares that show the lit pixels, as top-left corners in window
    /// coordinates, row by row and left to right. Each square is
    /// `PIXEL_SIZE` wide and high.
    pub fn draw(&self) -> (cells: Vec<(i32, i32)>)
        ensures
            cells@ == lit_cells(self@.vram, 2048),
    {
        let mut cells: Vec<(i32, i32)> = Vec::new();
        let mut index: usize = 0;
        while index < 2048
            invariant
                index <= 2048,
                cells@ == lit_cells(self@.vram, index as nat),
            decreases 2048 - index,
        {
            if self.vram[index] == 1 {
                let x = (index % 64) as i32;
                let y = (index / 64) as i32;
                cells.push((x * PIXEL_SIZE, y * PIXEL_SIZE));
            }
            index += 1;
        }
        cells
    }

    /// Whether the state is well formed.
    pub fn is_valid(&self) -> (valid: bool)
        ensures
            valid == self.wf(),
    {
        if self.sp > 16 {
            return false;
        }
        let mut index: usize = 0;
        while index < 2048
            invariant
                index <= 2048,
                self.sp <= 16,
                forall|k: int| 0 <= k < index ==> self.vram@[k] <= 1,
            decreases 2048 - index,
        {
            if self.vram[index] > 1 {
                return false;
            }
            index += 1;
        }
        true
    }
}

/// Draws a byte with `rand::random`, which reads the thread-local generator
/// of the `rand` crate. Nothing is claimed of the value: every byte is
/// possible, and two draws need not agree. The generator is seeded from the
/// operating system on its first use in a thread, and `rand` panics there if
/// the system gives it no entropy.
#[verifier::external_body]
fn random_byte() -> u8 {
    rand::random::<u8>()
}

} // verus!
