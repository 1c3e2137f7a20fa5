//! What holds of the instructions, proved from their meaning in `model`.

use vstd::prelude::*;
use crate::font::glyph_row;
use crate::model::{
    blit, cell, collides, cycle, cycles, execute, fetch, first_key_from, initial, lit, lit_before,
    op_class, op_kk, op_n, op_x, op_y, sprite_bit, target, tick, ticked, wrap16, wrap8, Machine,
    Signal,
};
use crate::sprite::lemma_target_unique;

verus! {

/// Flipping a cell that holds 0 or 1 gives the other of the two, and flipping
/// any cell twice gives it back.
pub proof fn lemma_flip(a: u8)
    ensures
        (a ^ 1) ^ 1 == a,
        a == 0 ==> a ^ 1 == 1,
        a == 1 ==> a ^ 1 == 0,
        a ^ 1 == 1 ==> a == 0,
{
    assert((a ^ 1) ^ 1 == a) by (bit_vector);
    assert(a == 0 ==> a ^ 1 == 1) by (bit_vector);
    assert(a == 1 ==> a ^ 1 == 0) by (bit_vector);
    assert(a ^ 1 == 1 ==> a == 0) by (bit_vector);
}

/// No instruction leaves the well-formed states: the stack pointer stays
/// within the stack and every framebuffer cell stays 0 or 1.
pub proof fn lemma_execute_keeps_wf(s: Machine, op: u16, rnd: u8)
    requires
        s.wf(),
    ensures
        execute(s, op, rnd).0.wf(),
{
    let t = execute(s, op, rnd).0;
    assert(t.shaped());
    assert forall|k: int| 0 <= k < 2048 implies #[trigger] t.gfx[k] <= 1 by {
        lemma_flip(s.gfx[k]);
    }
}

/// No cycle leaves the well-formed states.
pub proof fn lemma_cycle_keeps_wf(s: Machine, rnd: u8)
    requires
        s.wf(),
    ensures
        cycle(s, rnd).wf(),
{
    lemma_execute_keeps_wf(s, fetch(s), rnd);
}

/// No instruction writes the keypad, and neither does a cycle.
pub proof fn law_keypad_untouched(s: Machine, op: u16, rnd: u8)
    ensures
        execute(s, op, rnd).0.keypad == s.keypad,
        cycle(s, rnd).keypad == s.keypad,
{
}

/// Whenever an instruction changes the framebuffer, the dirty flag is set
/// after it; and only `00E0` and `Dxyn` touch the framebuffer or the flag.
pub proof fn law_framebuffer_changes_are_flagged(s: Machine, op: u16, rnd: u8)
    ensures
        execute(s, op, rnd).0.gfx != s.gfx ==> execute(s, op, rnd).0.draw_flag,
        !(op_class(op) == 0xD || (op_class(op) == 0 && op_kk(op) == 0xE0)) ==> execute(
            s,
            op,
            rnd,
        ).0.gfx == s.gfx && execute(s, op, rnd).0.draw_flag == s.draw_flag,
        op_class(op) == 0xD ==> execute(s, op, rnd).0.draw_flag,
{
}

/// A cycle lowers each timer by one unless the instruction set it, and never
/// below zero: a timer that the instruction leaves at zero stays there.
pub proof fn law_timers_floor_at_zero(s: Machine, rnd: u8)
    ensures
        cycle(s, rnd).delay_timer == tick(execute(s, fetch(s), rnd).0.delay_timer),
        cycle(s, rnd).sound_timer == tick(execute(s, fetch(s), rnd).0.sound_timer),
        cycle(s, rnd).delay_timer <= execute(s, fetch(s), rnd).0.delay_timer,
        cycle(s, rnd).sound_timer <= execute(s, fetch(s), rnd).0.sound_timer,
        execute(s, fetch(s), rnd).0.delay_timer == 0 ==> cycle(s, rnd).delay_timer == 0,
        execute(s, fetch(s), rnd).0.sound_timer == 0 ==> cycle(s, rnd).sound_timer == 0,
{
}

/// Only `Cxkk` reads the random byte.
pub proof fn lemma_random_only_in_cxkk(s: Machine, op: u16, a: u8, b: u8)
    requires
        op_class(op) != 0xC,
    ensures
        execute(s, op, a) == execute(s, op, b),
{
}

/// In a new machine the five bytes at `0x50 + digit * 5` are the glyph of
/// `digit`, for every digit 0 to F.
pub proof fn law_glyphs_in_memory(digit: int, row: int)
    requires
        0 <= digit < 16,
        0 <= row < 5,
    ensures
        initial().memory[0x50 + digit * 5 + row] == glyph_row(digit, row),
{
}

/// Reducing modulo 256 before a further addition changes nothing.
pub proof fn lemma_wrap8_add(a: int, b: int)
    requires
        0 <= a < 512,
        0 <= b < 256,
    ensures
        wrap8(wrap8(a) + b) == wrap8(a + b),
{
}

/// `7xkk` twice on one register adds both bytes modulo 256.
pub proof fn law_add_immediate_twice(s: Machine, first: u16, second: u16, rnd: u8)
    requires
        s.shaped(),
        op_class(first) == 7,
        op_class(second) == 7,
        op_x(first) == op_x(second),
    ensures
        execute(execute(s, first, rnd).0, second, rnd).0.v[op_x(first)] == wrap8(
            s.v[op_x(first)] + op_kk(first) + op_kk(second),
        ),
{
    let x = op_x(first);
    let t = execute(s, first, rnd).0;
    assert(t.v[x] == wrap8(s.v[x] + op_kk(first)));
    assert(execute(t, second, rnd).0.v[x] == wrap8(t.v[x] + op_kk(second)));
    lemma_wrap8_add(s.v[x] + op_kk(first), op_kk(second) as int);
}

/// `8xy4` with `x` below 15: `VF` is 1 if the sum of `Vx` and `Vy` exceeds
/// 255 and 0 otherwise, and `Vx` becomes the sum modulo 256.
pub proof fn law_add_carry(s: Machine, op: u16, rnd: u8)
    requires
        s.shaped(),
        op_class(op) == 8,
        op_n(op) == 4,
        op_x(op) != 15,
    ensures
        execute(s, op, rnd).0.v[15] == (if s.v[op_x(op)] + s.v[op_y(op)] > 255 {
            1u8
        } else {
            0u8
        }),
        execute(s, op, rnd).0.v[op_x(op)] == wrap8(s.v[op_x(op)] + s.v[op_y(op)]),
{
}

/// `8xy5` with `x` below 15, for every `y`: `VF` is 1 if `Vx` exceeds `Vy`
/// and 0 otherwise, and `Vx` becomes the difference modulo 256, both taken on
/// the values from before the instruction.
pub proof fn law_sub_borrow(s: Machine, op: u16, rnd: u8)
    requires
        s.shaped(),
        op_class(op) == 8,
        op_n(op) == 5,
        op_x(op) != 15,
    ensures
        execute(s, op, rnd).0.v[15] == (if s.v[op_x(op)] > s.v[op_y(op)] {
            1u8
        } else {
            0u8
        }),
        execute(s, op, rnd).0.v[op_x(op)] == wrap8(s.v[op_x(op)] - s.v[op_y(op)]),
{
}

/// `8xy7` with `x` below 15, for every `y`: `VF` is 1 if `Vy` exceeds `Vx`
/// and 0 otherwise, and `Vx` becomes `Vy - Vx` modulo 256, both taken on the
/// values from before the instruction.
pub proof fn law_subn_borrow(s: Machine, op: u16, rnd: u8)
    requires
        s.shaped(),
        op_class(op) == 8,
        op_n(op) == 7,
        op_x(op) != 15,
    ensures
        execute(s, op, rnd).0.v[15] == (if s.v[op_y(op)] > s.v[op_x(op)] {
            1u8
        } else {
            0u8
        }),
        execute(s, op, rnd).0.v[op_x(op)] == wrap8(s.v[op_y(op)] - s.v[op_x(op)]),
{
}

/// An `8xy?` instruction with `x` below 15 changes no register but `Vx` and
/// `VF`, and moves the program counter on by 2.
pub proof fn law_alu_touches_vx_and_vf(s: Machine, op: u16, rnd: u8, j: int)
    requires
        s.shaped(),
        op_class(op) == 8,
        0 <= j < 15,
        j != op_x(op),
    ensures
        execute(s, op, rnd).0.v[j] == s.v[j],
        execute(s, op, rnd).0.pc == wrap16(s.pc + 2),
{
}

/// `8xy6` and `8xyE` do not read `Vy`: two such instructions that differ
/// only in `y` have the same effect.
pub proof fn law_shift_ignores_y(s: Machine, a: u16, b: u16, rnd: u8)
    requires
        op_class(a) == 8,
        op_class(b) == 8,
        op_n(a) == op_n(b),
        op_n(a) == 6 || op_n(a) == 0xE,
        op_x(a) == op_x(b),
    ensures
        execute(s, a, rnd) == execute(s, b, rnd),
{
}

/// `8xy6` with `x` below 15: `VF` is the lowest bit of `Vx`, and `Vx` is
/// halved.
pub proof fn law_shift_right(s: Machine, op: u16, rnd: u8)
    requires
        s.shaped(),
        op_class(op) == 8,
        op_n(op) == 6,
        op_x(op) != 15,
    ensures
        execute(s, op, rnd).0.v[15] == s.v[op_x(op)] % 2,
        execute(s, op, rnd).0.v[op_x(op)] == s.v[op_x(op)] / 2,
        s.v[op_x(op)] == 2 * execute(s, op, rnd).0.v[op_x(op)] + execute(s, op, rnd).0.v[15],
{
}

/// `8xyE` with `x` below 15: `VF` is the highest bit of `Vx`, and `Vx` is
/// doubled modulo 256.
pub proof fn law_shift_left(s: Machine, op: u16, rnd: u8)
    requires
        s.shaped(),
        op_class(op) == 8,
        op_n(op) == 0xE,
        op_x(op) != 15,
    ensures
        execute(s, op, rnd).0.v[15] == s.v[op_x(op)] / 128,
        execute(s, op, rnd).0.v[op_x(op)] == wrap8(s.v[op_x(op)] * 2),
        s.v[op_x(op)] * 2 == 256 * execute(s, op, rnd).0.v[15] + execute(s, op, rnd).0.v[op_x(
            op,
        )],
{
}

/// Drawing a sprite a second time at the same place, with `x` and `y` below
/// 15 so that the flag does not move it, restores the framebuffer; the second
/// draw sets `VF` to 1 exactly if the first one turned some pixel on.
pub proof fn law_draw_twice(s: Machine, op: u16, rnd: u8)
    requires
        s.shaped(),
        op_class(op) == 0xD,
        op_x(op) != 15,
        op_y(op) != 15,
    ensures
        execute(execute(s, op, rnd).0, op, rnd).0.gfx == s.gfx,
        execute(execute(s, op, rnd).0, op, rnd).0.v[15] == 1 <==> exists|k: int|
            0 <= k < 2048 && #[trigger] lit(
                s,
                s.v[op_x(op)] as int,
                s.v[op_y(op)] as int,
                op_n(op),
                k,
            ) && execute(s, op, rnd).0.gfx[k] == 1,
        execute(execute(s, op, rnd).0, op, rnd).0.v[15] == 0 || execute(
            execute(s, op, rnd).0,
            op,
            rnd,
        ).0.v[15] == 1,
{
    let t = execute(s, op, rnd).0;
    let u = execute(t, op, rnd).0;
    let vx = s.v[op_x(op)] as int;
    let vy = s.v[op_y(op)] as int;
    let n = op_n(op);
    assert(t.v[op_x(op)] == vx && t.v[op_y(op)] == vy);
    assert forall|k: int| 0 <= k < 2048 implies lit(t, vx, vy, n, k) == lit(s, vx, vy, n, k) by {}
    assert forall|k: int| 0 <= k < 2048 implies #[trigger] u.gfx[k] == s.gfx[k] by {
        lemma_flip(s.gfx[k]);
    }
    assert(u.gfx =~= s.gfx);
    if collides(t, vx, vy, n) {
        let w = choose|k: int|
            0 <= k < 2048 && #[trigger] lit_before(t, vx, vy, n, 0, k) && t.gfx[k] == 1;
        assert(lit(s, vx, vy, n, w));
    }
    if exists|k: int| 0 <= k < 2048 && #[trigger] lit(s, vx, vy, n, k) && t.gfx[k] == 1 {
        let w = choose|k: int| 0 <= k < 2048 && #[trigger] lit(s, vx, vy, n, k) && t.gfx[k] == 1;
        assert(lit_before(t, vx, vy, n, 0, w));
    }
}

/// A sprite placed at column 63 wraps: its column `c`, for `c` from 1 to 7,
/// lands in framebuffer column `c - 1` of the row it belongs to.
pub proof fn law_draw_wraps(s: Machine, vy: int, n: int, r: int, c: int)
    requires
        s.shaped(),
        0 <= vy < 256,
        0 <= r < n <= 15,
        1 <= c < 8,
    ensures
        target(63, vy, r, c) == ((vy + r) % 32) * 64 + (c - 1),
        blit(s, 63, vy, n)[target(63, vy, r, c)] == (if sprite_bit(s.memory[cell(s.i + r)], c) {
            s.gfx[target(63, vy, r, c)] ^ 1
        } else {
            s.gfx[target(63, vy, r, c)]
        }),
{
    lemma_target_unique(63, vy, r, c, target(63, vy, r, c));
}

/// After `00E0` every framebuffer cell is 0 and the dirty flag is set.
pub proof fn law_clear(s: Machine, op: u16, rnd: u8)
    requires
        op_class(op) == 0,
        op_kk(op) == 0xE0,
    ensures
        execute(s, op, rnd).0.draw_flag,
        execute(s, op, rnd).0.gfx.len() == 2048,
        forall|k: int| 0 <= k < 2048 ==> #[trigger] execute(s, op, rnd).0.gfx[k] == 0,
{
}

/// A call on a stack that is not full, followed at once by a return, leaves
/// the program counter two past the call and the stack pointer where it was.
pub proof fn law_call_return(s: Machine, call: u16, ret: u16, rnd: u8)
    requires
        s.shaped(),
        s.sp < 16,
        op_class(call) == 2,
        op_class(ret) == 0,
        op_kk(ret) == 0xEE,
    ensures
        execute(execute(s, call, rnd).0, ret, rnd).0.pc == wrap16(s.pc + 2),
        execute(execute(s, call, rnd).0, ret, rnd).0.sp == s.sp,
        execute(s, call, rnd).1 == Signal::Executed,
        execute(execute(s, call, rnd).0, ret, rnd).1 == Signal::Executed,
{
}

/// `first_key_from` is the lowest pressed key at or above `from`.
pub proof fn lemma_first_key(keypad: Seq<bool>, from: int)
    requires
        0 <= from <= 16,
    ensures
        from <= first_key_from(keypad, from) <= 16,
        first_key_from(keypad, from) < 16 ==> keypad[first_key_from(keypad, from)],
        forall|k: int| from <= k < first_key_from(keypad, from) ==> !#[trigger] keypad[k],
    decreases 16 - from,
{
    if from < 16 && !keypad[from] {
        lemma_first_key(keypad, from + 1);
    }
}

/// While no key is pressed, a cycle on `Fx0A` only ticks the timers: the
/// program counter stays, and so does the instruction under it.
pub proof fn law_key_wait_blocks(s: Machine, rnd: u8)
    requires
        s.shaped(),
        op_class(fetch(s)) == 0xF,
        op_kk(fetch(s)) == 0x0A,
        forall|k: int| 0 <= k < 16 ==> !#[trigger] s.keypad[k],
    ensures
        cycle(s, rnd) == ticked(s),
        cycle(s, rnd).pc == s.pc,
        fetch(cycle(s, rnd)) == fetch(s),
{
    lemma_first_key(s.keypad, 0);
}

/// While no key is pressed, any number of cycles on `Fx0A` leave the program
/// counter, the registers, the memory and the framebuffer as they were.
pub proof fn law_key_wait_blocks_repeatedly(s: Machine, rnds: Seq<u8>)
    requires
        s.shaped(),
        op_class(fetch(s)) == 0xF,
        op_kk(fetch(s)) == 0x0A,
        forall|k: int| 0 <= k < 16 ==> !#[trigger] s.keypad[k],
    ensures
        cycles(s, rnds).pc == s.pc,
        cycles(s, rnds).v == s.v,
        cycles(s, rnds).memory == s.memory,
        cycles(s, rnds).keypad == s.keypad,
        cycles(s, rnds).gfx == s.gfx,
        cycles(s, rnds).shaped(),
    decreases rnds.len(),
{
    if rnds.len() > 0 {
        law_key_wait_blocks_repeatedly(s, rnds.drop_last());
        law_key_wait_blocks(cycles(s, rnds.drop_last()), rnds.last());
    }
}

/// Once a key is pressed, a cycle on `Fx0A` stores the lowest pressed key in
/// `Vx` and moves the program counter on by 2.
pub proof fn law_key_wait_releases(s: Machine, key: int, rnd: u8)
    requires
        s.shaped(),
        op_class(fetch(s)) == 0xF,
        op_kk(fetch(s)) == 0x0A,
        0 <= key < 16,
        s.keypad[key],
        forall|k: int| 0 <= k < key ==> !#[trigger] s.keypad[k],
    ensures
        cycle(s, rnd).v[op_x(fetch(s))] == key,
        cycle(s, rnd).pc == wrap16(s.pc + 2),
{
    lemma_first_key(s.keypad, 0);
}

} // verus!
