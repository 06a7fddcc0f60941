use vstd::prelude::*;
use crate::chip8::{
    cycle_spec, execute_spec, op_n, op_nn, op_x, op_y, Machine, FLAG, MEMORY_SIZE, STACK_DEPTH,
};
use crate::keypad::{is_lowest_pressed, some_pressed};
use crate::timers::{beeps, tick_spec};

verus! {

/// The flag that the `8xy_` instruction with selector `sel` leaves in `VF`:
/// the carry of an addition, the absence of a borrow in a subtraction, or the
/// bit shifted out.
pub open spec fn arith_flag(sel: int, vx: u8, vy: u8) -> u8 {
    if sel == 4 {
        if vx + vy > 255 {
            1
        } else {
            0
        }
    } else if sel == 5 {
        if vx >= vy {
            1
        } else {
            0
        }
    } else if sel == 6 {
        vx % 2
    } else if sel == 7 {
        if vy >= vx {
            1
        } else {
            0
        }
    } else {
        vx / 128
    }
}

/// For every pair of register values, and for every choice of registers,
/// the flag-setting `8xy_` instructions leave exactly the carry, no-borrow or
/// shifted-out bit in `VF`, even when `x` is `VF` itself.
pub proof fn lemma_arith_flag(m: Machine, x: u16, y: u16, sel: u16, random_byte: u8)
    requires
        m.wf(),
        x < 16,
        y < 16,
        sel == 4 || sel == 5 || sel == 6 || sel == 7 || sel == 0xE,
    ensures
        ({
            let r = execute_spec(m, (0x8000 + x * 256 + y * 16 + sel) as u16, random_byte);
            &&& r is Ok
            &&& r->Ok_0.v[FLAG as int] == arith_flag(sel as int, m.v[x as int], m.v[y as int])
            &&& r->Ok_0.pc == (m.pc + 2) as u16
        }),
{
    let op = (0x8000 + x * 256 + y * 16 + sel) as u16;
    let o = op as int;
    assert(o == 0x8000 + x * 256 + y * 16 + sel);
    assert(o / 4096 == 8 && (o / 256) % 16 == x && (o / 16) % 16 == y && o % 16 == sel)
        by (nonlinear_arith)
        requires
            o == 0x8000 + x * 256 + y * 16 + sel,
            x < 16,
            y < 16,
            sel < 16,
    ;
    let next = m.advance(2);
    assert(execute_spec(m, op, random_byte) == crate::chip8::arith_spec(
        next,
        op,
        x as int,
        m.v[x as int],
        m.v[y as int],
    ));
}

/// `Fx1E` adds `Vx` to the index register and sets `VF` exactly when the
/// sum passes `0xFFF`.
pub proof fn lemma_index_carry(m: Machine, x: u16, random_byte: u8)
    requires
        m.wf(),
        x < 16,
    ensures
        ({
            let r = execute_spec(m, (0xF01E + x * 256) as u16, random_byte);
            &&& r is Ok
            &&& r->Ok_0.v[FLAG as int] == if m.index + m.v[x as int] > 0xFFF {
                1u8
            } else {
                0u8
            }
            &&& r->Ok_0.index == (m.index + m.v[x as int]) % 0x10000
        }),
{
    let op = (0xF01E + x * 256) as u16;
    assert(op / 4096 == 0xF && op_x(op) == x && op_nn(op) == 0x1E);
}

/// `Fx33` writes the hundreds, tens and ones digits of `Vx`, each below ten,
/// which put together give `Vx` back.
pub proof fn lemma_decimal_digits(m: Machine, x: u16, random_byte: u8)
    requires
        m.wf(),
        x < 16,
        m.index + 3 <= MEMORY_SIZE,
    ensures
        ({
            let r = execute_spec(m, (0xF033 + x * 256) as u16, random_byte);
            let mem = r->Ok_0.memory;
            let i = m.index as int;
            &&& r is Ok
            &&& mem[i] < 10 && mem[i + 1] < 10 && mem[i + 2] < 10
            &&& mem[i] * 100 + mem[i + 1] * 10 + mem[i + 2] == m.v[x as int]
        }),
{
    let op = (0xF033 + x * 256) as u16;
    assert(op / 4096 == 0xF && op_x(op) == x && op_nn(op) == 0x33);
}

/// A subroutine call followed by the return at its target brings the
/// program counter to the instruction after the call and the stack pointer
/// back to where it was.
pub proof fn lemma_call_return(m: Machine, target: u16, b1: u8, b2: u8)
    requires
        m.wf(),
        m.pc + 1 < MEMORY_SIZE,
        m.sp < STACK_DEPTH,
        target + 1 < MEMORY_SIZE,
        m.fetch() == 0x2000 + target,
        m.memory[target as int] == 0x00,
        m.memory[target + 1] == 0xEE,
    ensures
        cycle_spec(m, b1) is Ok,
        ({
            let m1 = cycle_spec(m, b1)->Ok_0.0;
            &&& m1.pc == target
            &&& m1.sp == m.sp + 1
            &&& cycle_spec(m1, b2) is Ok
            &&& cycle_spec(m1, b2)->Ok_0.0.pc == m.pc + 2
            &&& cycle_spec(m1, b2)->Ok_0.0.sp == m.sp
        }),
{
    let op = m.fetch();
    assert(op / 4096 == 2 && op % 4096 == target);
    let m1 = cycle_spec(m, b1)->Ok_0.0;
    assert(m1.memory == m.memory);
    assert(m1.fetch() == 0x00EE);
}

/// While no key is pressed, `Fx0A` leaves everything but the timers as it
/// was, so the same instruction runs again on the next cycle.
pub proof fn lemma_key_wait_blocks(m: Machine, x: u16, random_byte: u8)
    requires
        m.wf(),
        m.pc + 1 < MEMORY_SIZE,
        x < 16,
        m.fetch() == 0xF00A + x * 256,
        !some_pressed(m.keys),
    ensures
        cycle_spec(m, random_byte) == Ok::<(Machine, bool), crate::chip8::Fault>(
            (Machine { timers: tick_spec(m.timers), ..m }, beeps(m.timers)),
        ),
{
    let op = m.fetch();
    assert(op / 4096 == 0xF && op_x(op) == x && op_nn(op) == 0x0A);
}

/// Once a key is pressed, `Fx0A` stores the lowest pressed key in `Vx` and
/// moves on to the next instruction.
pub proof fn lemma_key_wait_resumes(m: Machine, x: u16, k: int, random_byte: u8)
    requires
        m.wf(),
        m.pc + 1 < MEMORY_SIZE,
        x < 16,
        m.fetch() == 0xF00A + x * 256,
        is_lowest_pressed(m.keys, k),
    ensures
        cycle_spec(m, random_byte) is Ok,
        cycle_spec(m, random_byte)->Ok_0.0.v[x as int] == k,
        cycle_spec(m, random_byte)->Ok_0.0.pc == m.pc + 2,
{
    let op = m.fetch();
    assert(op / 4096 == 0xF && op_x(op) == x && op_nn(op) == 0x0A);
    assert(some_pressed(m.keys));
    assert(forall|j: int| is_lowest_pressed(m.keys, j) ==> j == k);
}

/// A cycle ticks the timers after the instruction: unless the instruction
/// loads the sound timer, a sound timer at one runs out with a beep; unless
/// it loads the delay timer, a delay timer at zero stays at zero.
pub proof fn lemma_cycle_timers(m: Machine, random_byte: u8)
    requires
        m.wf(),
        cycle_spec(m, random_byte) is Ok,
    ensures
        ({
            let n = cycle_spec(m, random_byte)->Ok_0.0;
            let beep = cycle_spec(m, random_byte)->Ok_0.1;
            let op = m.fetch();
            &&& m.timers.sound == 1 && !(op / 4096 == 0xF && op_nn(op) == 0x18) ==> n.timers.sound
                == 0 && beep
            &&& m.timers.delay == 0 && !(op / 4096 == 0xF && op_nn(op) == 0x15) ==> n.timers.delay
                == 0
        }),
{
    let op = m.fetch();
    let e = execute_spec(m, op, random_byte);
    assert(e is Ok);
    if !(op / 4096 == 0xF && (op_nn(op) == 0x18 || op_nn(op) == 0x15)) {
        assert(e->Ok_0.timers == m.timers);
    }
}

} // verus!
