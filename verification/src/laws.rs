//! Laws of the instruction set, proved of the model.
//!
//! The executable machine follows the model instruction by instruction, so
//! each law holds of it too.

use vstd::prelude::*;
use crate::machine::{
    bit_set, column_offset, row_offset, target_pixel, MachineState, NUM_REGS, RAM_SIZE,
    SCREEN_SIZE, STACK_SIZE,
};
use crate::opcode::{family, n_field, uses_random, x_field, y_field};
use crate::sprite::{lemma_column_offset, lemma_row_offset};

verus! {

/// Executing an instruction that can be executed leaves a well-formed state
/// well-formed.
pub proof fn lemma_execute_preserves_wf(s: MachineState, op: u16, rnd: u8)
    requires
        s.wf(),
        s.execute_fault(op) is None,
    ensures
        s.execute(op, rnd).wf(),
{
}

/// A tick that can be carried out leaves a well-formed state well-formed.
pub proof fn lemma_step_preserves_wf(s: MachineState, rnd: u8)
    requires
        s.wf(),
        s.fault() is None,
    ensures
        s.step(rnd).wf(),
{
    lemma_execute_preserves_wf(s.fetched(), s.opcode(), rnd);
}

/// The initial state is well-formed, and loading a program, pressing a key
/// and ticking the timers keep a state so.
pub proof fn lemma_setters_preserve_wf(s: MachineState, data: Seq<u8>, key: int, pressed: bool)
    requires
        s.wf(),
        0 <= key < 16,
    ensures
        MachineState::initial().wf(),
        s.with_program(data).wf(),
        s.with_key(key, pressed).wf(),
        s.after_timer_tick().wf(),
{
}

/// Only `Cxnn` looks at the random byte: every other instruction leads to
/// the same state whatever the byte is.
pub proof fn lemma_random_byte_unused(s: MachineState, op: u16, rnd1: u8, rnd2: u8)
    requires
        !uses_random(op),
    ensures
        s.execute(op, rnd1) == s.execute(op, rnd2),
{
}

/// A tick leads to the state that `step` gives for some random byte, and
/// where the next instruction is not `Cxnn`, for every random byte.
pub proof fn lemma_tick_is_a_step(s: MachineState, next: MachineState)
    requires
        s.ticks_to(next),
    ensures
        exists|rnd: u8| next == #[trigger] s.step(rnd),
        !uses_random(s.opcode()) ==> forall|rnd: u8| next == #[trigger] s.step(rnd),
{
    if !uses_random(s.opcode()) {
        assert(next == s.step(0));
        assert forall|rnd: u8| next == #[trigger] s.step(rnd) by {
            lemma_random_byte_unused(s.fetched(), s.opcode(), 0, rnd);
        }
    }
}

/// `8xy4` leaves in `VF` whether `Vx + Vy` exceeds 255, and, unless `x` is
/// `F`, in `Vx` the sum modulo 256.
pub proof fn lemma_add_sets_carry(s: MachineState, op: u16, rnd: u8)
    requires
        s.wf(),
        family(op) == 8,
        n_field(op) == 4,
    ensures
        ({
            let x: int = x_field(op) as int;
            let y: int = y_field(op) as int;
            let t: MachineState = s.execute(op, rnd);
            &&& t.v[0xF] == 1 <==> s.v[x] + s.v[y] > 255
            &&& t.v[0xF] == 0 <==> s.v[x] + s.v[y] <= 255
            &&& x != 0xF ==> t.v[x] == (s.v[x] + s.v[y]) % 256
        }),
{
}

/// `8xy5` leaves in `VF` whether `Vx >= Vy`, that is, whether nothing was
/// borrowed, and, unless `x` is `F`, in `Vx` the difference modulo 256.
pub proof fn lemma_sub_sets_no_borrow(s: MachineState, op: u16, rnd: u8)
    requires
        s.wf(),
        family(op) == 8,
        n_field(op) == 5,
    ensures
        ({
            let x: int = x_field(op) as int;
            let y: int = y_field(op) as int;
            let t: MachineState = s.execute(op, rnd);
            &&& t.v[0xF] == 1 <==> s.v[x] >= s.v[y]
            &&& t.v[0xF] == 0 <==> s.v[x] < s.v[y]
            &&& x != 0xF ==> t.v[x] == (s.v[x] - s.v[y]) % 256
        }),
{
}

/// After `00E0` every pixel is off, whatever was drawn before.
pub proof fn lemma_clear_turns_all_off(s: MachineState, rnd: u8)
    ensures
        s.execute(0x00E0, rnd).display.len() == SCREEN_SIZE,
        forall|p: int| 0 <= p < SCREEN_SIZE ==> !s.execute(0x00E0, rnd).display[p],
{
}

/// A sprite lights exactly the pixels on which its set bits land: pixel `p`
/// is lit if and only if, for some row `r` of the sprite and some bit `c`
/// that is set in that row, `p` lies in column `(vx + c) mod 64` of row
/// `(vy + r) mod 32`.
pub proof fn lemma_sprite_lights_targets(s: MachineState, vx: int, vy: int, rows: int, p: int)
    requires
        0 <= rows <= 32,
        0 <= p < SCREEN_SIZE,
    ensures
        s.sprite_lights(vx, vy, rows, p) <==> exists|r: int, c: int|
            0 <= r < rows && 0 <= c < 8 && bit_set(s.memory[s.i + r], c) && #[trigger] target_pixel(
                vx,
                vy,
                r,
                c,
            ) == p,
{
    if s.sprite_lights(vx, vy, rows, p) {
        let c: int = column_offset(vx, p);
        let r: int = row_offset(vy, p);
        lemma_column_offset(vx, c, p);
        lemma_row_offset(vy, r, p);
        assert(target_pixel(vx, vy, r, c) == p);
    }
    if exists|r: int, c: int|
        0 <= r < rows && 0 <= c < 8 && bit_set(s.memory[s.i + r], c) && #[trigger] target_pixel(
            vx,
            vy,
            r,
            c,
        ) == p {
        let (r, c) = choose|r: int, c: int|
            0 <= r < rows && 0 <= c < 8 && bit_set(s.memory[s.i + r], c) && #[trigger] target_pixel(
                vx,
                vy,
                r,
                c,
            ) == p;
        lemma_column_offset(vx, c, p);
        lemma_row_offset(vy, r, p);
    }
}

/// A sprite row of eight set bits lights eight pixels side by side, from
/// column `Vx mod 64` on and round the right edge of the display: with
/// `Vx = 60` these are the columns 60 to 63 and 0 to 3.
pub proof fn lemma_full_row_wraps(s: MachineState, x: int, y: int, c: int)
    requires
        s.wf(),
        0 <= x < 16,
        0 <= y < 16,
        s.i < RAM_SIZE,
        s.memory[s.i as int] == 0xFF,
        0 <= c < 8,
    ensures
        s.draw(x, y, 1).display[(s.v[x] + c) % 64 + 64 * (s.v[y] % 32)],
        s.v[x] == 60 ==> (s.v[x] + c) % 64 == if c < 4 {
            60 + c
        } else {
            c - 4
        },
{
    let vx: int = s.v[x] as int;
    let vy: int = s.v[y] as int;
    let p: int = target_pixel(vx, vy, 0, c);
    let bit: u8 = c as u8;
    assert(0xFFu8 & (0x80u8 >> bit) != 0) by (bit_vector)
        requires
            bit < 8,
    ;
    assert(bit_set(s.memory[s.i + 0], c));
    lemma_sprite_lights_targets(s, vx, vy, 1, p);
    assert(s.sprite_lights(vx, vy, 1, p));
}

/// `1nnn` sets the program counter to `nnn`, whatever the state was; so
/// does a tick on a state whose next instruction is `1nnn`.
pub proof fn lemma_jump_sets_pc(s: MachineState, nnn: u16, rnd: u8)
    requires
        nnn < 0x1000,
    ensures
        s.execute((0x1000 + nnn) as u16, rnd).pc == nnn,
        s.opcode() == 0x1000 + nnn ==> s.step(rnd).pc == nnn,
{
}

/// A call followed by a return brings back the state from before the call:
/// the program counter and the stack are as they were. Both can be
/// executed whenever the stack is not full before the call.
pub proof fn lemma_call_then_return(s: MachineState, nnn: u16, rnd1: u8, rnd2: u8)
    requires
        s.wf(),
        nnn < 0x1000,
    ensures
        ({
            let call: u16 = (0x2000 + nnn) as u16;
            let called: MachineState = s.execute(call, rnd1);
            &&& called.pc == nnn
            &&& called.execute(0x00EE, rnd2).pc == s.pc
            &&& called.execute(0x00EE, rnd2) == s
            &&& s.stack.len() < STACK_SIZE ==> s.execute_fault(call) is None
            &&& called.execute_fault(0x00EE) is None
        }),
{
    let call: u16 = (0x2000 + nnn) as u16;
    let called: MachineState = s.execute(call, rnd1);
    assert(called.stack.drop_last() == s.stack);
}

/// While no key is held down, a tick on `Fx0A` changes nothing: the program
/// counter is back where it was, so any number of ticks wait here.
pub proof fn lemma_wait_key_idles(s: MachineState, rnd: u8)
    requires
        s.wf(),
        s.fetchable(),
        family(s.opcode()) == 0xF,
        y_field(s.opcode()) == 0,
        n_field(s.opcode()) == 0xA,
        forall|k: int| 0 <= k < 16 ==> !s.keys[k],
    ensures
        s.fault() is None,
        s.step(rnd) == s,
{
}

/// With a key held down, a tick on `Fx0A` moves the program counter on by
/// two and puts into `Vx` the number of that key; of several keys held down
/// the lowest wins.
pub proof fn lemma_wait_key_takes_lowest(s: MachineState, k: int, rnd: u8)
    requires
        s.wf(),
        s.fetchable(),
        family(s.opcode()) == 0xF,
        y_field(s.opcode()) == 0,
        n_field(s.opcode()) == 0xA,
        0 <= k < 16,
        s.keys[k],
        forall|j: int| 0 <= j < k ==> !s.keys[j],
    ensures
        s.fault() is None,
        s.step(rnd).pc == s.pc + 2,
        s.step(rnd).v[x_field(s.opcode()) as int] == k,
        s.step(rnd) == s.fetched().set_reg(x_field(s.opcode()) as int, k as u8),
{
    let t: MachineState = s.fetched();
    assert(t.is_lowest_pressed(k));
    assert(t.any_pressed());
    let c: int = t.lowest_pressed();
    assert(t.is_lowest_pressed(c));
    assert(c == k);
}

/// A timer never goes below zero: it goes down by one while it is above
/// zero, and once it is zero further ticks of the timers leave it there.
pub proof fn lemma_timers_stop_at_zero(s: MachineState)
    ensures
        s.dt > 0 ==> s.after_timer_tick().dt == s.dt - 1,
        s.st > 0 ==> s.after_timer_tick().st == s.st - 1,
        s.dt == 0 ==> s.after_timer_tick().dt == 0,
        s.st == 0 ==> s.after_timer_tick().st == 0,
        s.dt == 0 && s.st == 0 ==> s.after_timer_tick() == s,
{
}

/// `Fx33` writes three decimal digits, of which the number is made up
/// again: of 157 these are 1, 5 and 7.
pub proof fn lemma_bcd_digits(s: MachineState, val: u8)
    requires
        s.wf(),
        s.i + 2 < RAM_SIZE,
    ensures
        ({
            let t: MachineState = s.store_bcd(val);
            let i: int = s.i as int;
            &&& t.memory[i] <= 2 && t.memory[i + 1] <= 9 && t.memory[i + 2] <= 9
            &&& 100 * t.memory[i] + 10 * t.memory[i + 1] + t.memory[i + 2] == val
            &&& val == 157 ==> t.memory[i] == 1 && t.memory[i + 1] == 5 && t.memory[i + 2] == 7
            &&& forall|a: int|
                0 <= a < RAM_SIZE && !(i <= a <= i + 2) ==> t.memory[a] == s.memory[a]
        }),
{
}

/// `Fx55` followed by `Fx65` with the same `x` and the same `I` restores
/// `V0` to `Vx`, whatever the registers held in between; the registers
/// above `Vx` are left alone by both.
pub proof fn lemma_store_then_load(
    s: MachineState,
    store: u16,
    load: u16,
    garbled: Seq<u8>,
    rnd1: u8,
    rnd2: u8,
)
    requires
        s.wf(),
        family(store) == 0xF,
        y_field(store) == 5,
        n_field(store) == 5,
        family(load) == 0xF,
        y_field(load) == 6,
        n_field(load) == 5,
        x_field(load) == x_field(store),
        s.i + x_field(store) < RAM_SIZE,
        garbled.len() == NUM_REGS,
    ensures
        ({
            let x: int = x_field(store) as int;
            let stored: MachineState = s.execute(store, rnd1);
            let garbled_state: MachineState = MachineState { v: garbled, ..stored };
            &&& s.execute_fault(store) is None
            &&& stored.execute_fault(load) is None
            &&& stored.execute(load, rnd2).v == s.v
            &&& forall|r: int| 0 <= r <= x ==> garbled_state.execute(load, rnd2).v[r] == s.v[r]
        }),
{
    let stored: MachineState = s.execute(store, rnd1);
    assert(stored.execute(load, rnd2).v =~= s.v);
}

} // verus!
