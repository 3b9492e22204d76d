//! Theorems about the machine: what holds of every state and instruction.

use vstd::prelude::*;

use crate::instruction::{lemma_decode_wf, Instruction};
use crate::machine::{Fault, Machine};
use crate::screen::{lemma_dark_screen, lit_cells};
use crate::sprite::lemma_plot_frame;

verus! {

/// An attempt to execute an instruction keeps the state well formed: the
/// stack pointer stays within the stack and every pixel stays 0 or 1.
pub proof fn lemma_step_wf(m: Machine, instruction: Instruction, random: u8)
    requires
        m.wf(),
        instruction.wf(),
    ensures
        m.step(instruction, random).wf(),
{
    match instruction {
        Instruction::OP_DXYN(x, y, n) => {
            lemma_plot_frame(m, x, y, 8 * n as nat);
        },
        _ => {},
    }
}

/// A step keeps the state well formed, whatever the opcode at the program
/// counter.
pub proof fn lemma_tick_wf(m: Machine, keys: Seq<u8>, random: u8)
    requires
        m.wf(),
        keys.len() == 16,
    ensures
        m.tick(keys, random).wf(),
{
    let started = m.begin_tick(keys);
    match started.next_instruction() {
        Some(instruction) => {
            lemma_decode_wf(started.fetch());
            lemma_step_wf(started, instruction, random);
        },
        None => {},
    }
}

/// Only `OP_CXNN` reads the random byte.
pub proof fn lemma_random_only_for_cxnn(
    m: Machine,
    instruction: Instruction,
    random: u8,
    other: u8,
)
    requires
        !(instruction is OP_CXNN),
    ensures
        m.step(instruction, random) == m.step(instruction, other),
{
}

/// After the screen is cleared every pixel reads 0 and the display shows
/// nothing.
pub proof fn lemma_clear_screen(m: Machine, random: u8)
    ensures
        ({
            let cleared = m.step(Instruction::OP_00E0, random);
            &&& forall|x: int, y: int| 0 <= x < 64 && 0 <= y < 32 ==> cleared.pixel(x, y) == 0
            &&& lit_cells(cleared.vram, 2048) == Seq::<(i32, i32)>::empty()
            &&& cleared == Machine { vram: cleared.vram, ..m }.advance()
        }),
{
    let cleared = m.step(Instruction::OP_00E0, random);
    assert forall|x: int, y: int| 0 <= x < 64 && 0 <= y < 32 implies cleared.pixel(x, y) == 0 by {
        assert(0 <= y * 64 + x < 2048);
    }
    lemma_dark_screen(cleared.vram, 2048);
}

/// A call followed by a return resumes after the call: the program counter
/// is two past where the call was, wrapping at 16 bits, the stack pointer
/// is back where it was, and nothing but the freed stack slot has changed.
/// The stack must have room for the call.
pub proof fn lemma_call_return(m: Machine, target: u16, random: u8, other: u8)
    requires
        m.wf(),
        m.sp < 16,
    ensures
        ({
            let called = m.step(Instruction::OP_2NNN(target), random);
            let returned = called.step(Instruction::OP_00EE, other);
            &&& m.outcome(Instruction::OP_2NNN(target)) is Ok
            &&& called.pc == target
            &&& called.outcome(Instruction::OP_00EE) is Ok
            &&& returned.pc == (m.pc + 2) % 0x10000
            &&& m.pc <= 0xFFFD ==> returned.pc == m.pc + 2
            &&& returned.sp == m.sp
            &&& returned == Machine {
                pc: returned.pc,
                stack: m.stack.update(m.sp as int, m.pc),
                ..m
            }
        }),
{
}

/// A step takes one from each timer that is not zero, unless the
/// instruction it executes sets that timer.
pub proof fn lemma_timers_decay(m: Machine, keys: Seq<u8>, random: u8)
    requires
        m.wf(),
        keys.len() == 16,
    ensures
        ({
            let next = m.begin_tick(keys).next_instruction();
            let after = m.tick(keys, random);
            &&& !(next matches Some(instruction) && instruction is OP_FX15) ==> after.delay_timer
                == if m.delay_timer > 0 {
                m.delay_timer - 1
            } else {
                0
            }
            &&& !(next matches Some(instruction) && instruction is OP_FX18) ==> after.sound_timer
                == if m.sound_timer > 0 {
                m.sound_timer - 1
            } else {
                0
            }
        }),
{
    let started = m.begin_tick(keys);
    match started.next_instruction() {
        Some(Instruction::OP_DXYN(x, y, n)) => {
            lemma_decode_wf(started.fetch());
            lemma_plot_frame(started, x, y, 8 * n as nat);
        },
        _ => {},
    }
}

/// A step on an opcode that denotes no instruction reports the opcode and
/// changes nothing but the key state and the timers.
pub proof fn lemma_unknown_opcode(m: Machine, keys: Seq<u8>, random: u8)
    requires
        m.begin_tick(keys).next_instruction() is None,
    ensures
        m.tick_outcome(keys) == Err::<(), Fault>(Fault::UnknownOpcode(m.begin_tick(keys).fetch())),
        m.tick(keys, random) == m.begin_tick(keys),
        m.tick(keys, random) == (Machine {
            keys: keys,
            delay_timer: m.tick(keys, random).delay_timer,
            sound_timer: m.tick(keys, random).sound_timer,
            ..m
        }),
{
}

/// After an addition `VX` and the carry in `VF` together hold the whole
/// sum. The target must not be `VF` itself, which the carry overwrites.
pub proof fn lemma_add_carry(m: Machine, x: u8, y: u8, random: u8)
    requires
        m.wf(),
        x < 15,
        y < 16,
    ensures
        ({
            let after = m.step(Instruction::OP_8XY4(x, y), random);
            &&& after.reg(x) + 0x100 * after.reg(0xF) == m.reg(x) + m.reg(y)
            &&& after.reg(0xF) == 1 <==> m.reg(x) + m.reg(y) > 0xFF
            &&& after.reg(0xF) <= 1
        }),
{
}

/// After a subtraction `VX` holds the difference, 256 more where it would
/// be negative, and `VF` is 1 exactly when `VX` was greater than `VY`. The
/// target must not be `VF` itself.
pub proof fn lemma_subtract_borrow(m: Machine, x: u8, y: u8, random: u8)
    requires
        m.wf(),
        x < 15,
        y < 16,
    ensures
        ({
            let after = m.step(Instruction::OP_8XY5(x, y), random);
            &&& after.reg(x) == if m.reg(x) < m.reg(y) {
                m.reg(x) - m.reg(y) + 0x100
            } else {
                m.reg(x) - m.reg(y)
            }
            &&& after.reg(0xF) == 1 <==> m.reg(x) > m.reg(y)
            &&& after.reg(0xF) <= 1
        }),
{
}

} // verus!
