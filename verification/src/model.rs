//! The mathematical machine: its state as plain sequences, and the meaning of
//! one instruction and of one cycle as functions from state to state.
//!
//! Three choices are made where the instruction set leaves them open. Memory
//! addresses wrap modulo 4096. The program counter and the index register
//! wrap modulo 65536. A call on a full stack, or a return on an empty one,
//! changes nothing but the program counter, which steps over the instruction,
//! and is signalled. A key index above 15 names no key: it is never pressed.

use vstd::prelude::*;
use crate::font::fontset;

verus! {

/// Framebuffer width in pixels.
pub const WIDTH: usize = 64;

/// Framebuffer height in pixels.
pub const HEIGHT: usize = 32;

/// Address at which a program is loaded and starts.
pub const PROGRAM_START: u16 = 0x200;

/// What the execution of one instruction reports besides the new state.
#[derive(Clone, Copy, Debug, PartialEq, Eq, Structural)]
pub enum Signal {
    /// The instruction was recognised and carried out.
    Executed,
    /// The instruction word belongs to no known instruction.
    UnknownOpcode,
    /// A call found the stack full.
    StackOverflow,
    /// A return found the stack empty.
    StackUnderflow,
}

/// The state of the machine.
pub struct Machine {
    pub memory: Seq<u8>,
    pub v: Seq<u8>,
    pub i: u16,
    pub pc: u16,
    pub gfx: Seq<u8>,
    pub delay_timer: u8,
    pub sound_timer: u8,
    pub stack: Seq<u16>,
    pub sp: u8,
    pub keypad: Seq<bool>,
    pub draw_flag: bool,
}

impl Machine {
    /// The sizes of the parts of the state.
    pub open spec fn shaped(self) -> bool {
        &&& self.memory.len() == 4096
        &&& self.v.len() == 16
        &&& self.gfx.len() == 2048
        &&& self.stack.len() == 16
        &&& self.keypad.len() == 16
    }

    /// The stack pointer is within the stack and every framebuffer cell is 0
    /// or 1.
    pub open spec fn wf(self) -> bool {
        &&& self.shaped()
        &&& self.sp <= 16
        &&& forall|k: int| 0 <= k < 2048 ==> #[trigger] self.gfx[k] <= 1
    }

    /// The state with register `x` set to `value`.
    pub open spec fn with_v(self, x: int, value: u8) -> Machine {
        Machine { v: self.v.update(x, value), ..self }
    }

    /// The state with the program counter moved forward by `by`.
    pub open spec fn advance(self, by: int) -> Machine {
        Machine { pc: wrap16(self.pc + by), ..self }
    }

    /// The state with the program counter past this instruction, and past the
    /// next one too if `cond` holds.
    pub open spec fn skip_if(self, cond: bool) -> Machine {
        self.advance(
            if cond {
                4
            } else {
                2
            },
        )
    }
}

/// `a` reduced to sixteen bits.
pub open spec fn wrap16(a: int) -> u16 {
    (a % 0x10000) as u16
}

/// `a` reduced to eight bits.
pub open spec fn wrap8(a: int) -> u8 {
    (a % 0x100) as u8
}

/// The memory cell that address `a` names.
pub open spec fn cell(a: int) -> int {
    a % 4096
}

/// The state right after construction: all zero, but for the glyphs at
/// `0x50` and the program counter at `0x200`.
pub open spec fn initial() -> Machine {
    Machine {
        memory: Seq::new(
            4096,
            |a: int|
                if 0x50 <= a < 0x50 + 80 {
                    fontset()[a - 0x50]
                } else {
                    0u8
                },
        ),
        v: Seq::new(16, |k: int| 0u8),
        i: 0,
        pc: 0x200,
        gfx: Seq::new(2048, |k: int| 0u8),
        delay_timer: 0,
        sound_timer: 0,
        stack: Seq::new(16, |k: int| 0u16),
        sp: 0,
        keypad: Seq::new(16, |k: int| false),
        draw_flag: false,
    }
}

/// Memory with the glyph table written at `0x50`.
pub open spec fn with_font(memory: Seq<u8>) -> Seq<u8> {
    Seq::new(
        4096,
        |a: int|
            if 0x50 <= a < 0x50 + 80 {
                fontset()[a - 0x50]
            } else {
                memory[a]
            },
    )
}

/// Memory with `rom` written from `0x200` on; what would fall past the end of
/// memory is left out.
pub open spec fn with_rom(memory: Seq<u8>, rom: Seq<u8>) -> Seq<u8> {
    Seq::new(
        4096,
        |a: int|
            if 0x200 <= a && a - 0x200 < rom.len() {
                rom[a - 0x200]
            } else {
                memory[a]
            },
    )
}

/// The instruction word at the program counter, high byte first.
pub open spec fn fetch(s: Machine) -> u16 {
    (s.memory[cell(s.pc as int)] as int * 256 + s.memory[cell(s.pc + 1)] as int) as u16
}

/// The top nibble of an instruction word.
pub open spec fn op_class(op: u16) -> int {
    op as int / 4096
}

/// The second nibble: the register `x`.
pub open spec fn op_x(op: u16) -> int {
    (op as int / 256) % 16
}

/// The third nibble: the register `y`.
pub open spec fn op_y(op: u16) -> int {
    (op as int / 16) % 16
}

/// The last nibble.
pub open spec fn op_n(op: u16) -> int {
    op as int % 16
}

/// The low byte.
pub open spec fn op_kk(op: u16) -> u8 {
    (op as int % 256) as u8
}

/// The low twelve bits.
pub open spec fn op_nnn(op: u16) -> u16 {
    (op as int % 4096) as u16
}

/// Whether the key that `index` names is pressed.
pub open spec fn key_down(keypad: Seq<bool>, index: int) -> bool {
    0 <= index < 16 && keypad[index]
}

/// The lowest pressed key at or above `from`; 16 if there is none.
pub open spec fn first_key_from(keypad: Seq<bool>, from: int) -> int
    decreases 16 - from,
{
    if from >= 16 {
        16
    } else if keypad[from] {
        from
    } else {
        first_key_from(keypad, from + 1)
    }
}

/// The lowest pressed key; 16 if no key is pressed.
pub open spec fn first_key(keypad: Seq<bool>) -> int {
    first_key_from(keypad, 0)
}

/// Whether bit `col` of a sprite row is set, bit 0 being the leftmost pixel.
pub open spec fn sprite_bit(row: u8, col: int) -> bool {
    row & (0x80u8 >> (col as u8)) != 0
}

/// Whether the sprite read from memory at the index register and placed at
/// (`vx`, `vy`) covers framebuffer cell `k` with a set bit, counting only the
/// sprite pixels before row `rows`, column `cols` in reading order. Each
/// coordinate wraps on its own.
pub open spec fn lit_before(s: Machine, vx: int, vy: int, rows: int, cols: int, k: int) -> bool {
    let c = (k % 64 - vx) % 64;
    let r = (k / 64 - vy) % 32;
    &&& c < 8
    &&& (r < rows || (r == rows && c < cols))
    &&& sprite_bit(s.memory[cell(s.i + r)], c)
}

/// The framebuffer cell under row `r`, column `c` of a sprite placed at
/// (`vx`, `vy`).
pub open spec fn target(vx: int, vy: int, r: int, c: int) -> int {
    ((vy + r) % 32) * 64 + (vx + c) % 64
}

/// Whether a set sprite pixel before row `rows`, column `cols` lies on a set
/// framebuffer cell.
pub open spec fn hits_before(s: Machine, vx: int, vy: int, rows: int, cols: int) -> bool {
    exists|k: int|
        0 <= k < 2048 && #[trigger] lit_before(s, vx, vy, rows, cols, k) && s.gfx[k] == 1
}

/// Whether the whole sprite of `n` rows covers cell `k` with a set bit.
pub open spec fn lit(s: Machine, vx: int, vy: int, n: int, k: int) -> bool {
    lit_before(s, vx, vy, n, 0, k)
}

/// The framebuffer after the sprite was drawn: each covered cell flipped.
pub open spec fn blit(s: Machine, vx: int, vy: int, n: int) -> Seq<u8> {
    Seq::new(
        2048,
        |k: int|
            if lit(s, vx, vy, n, k) {
                s.gfx[k] ^ 1
            } else {
                s.gfx[k]
            },
    )
}

/// Whether drawing the sprite turns a set pixel off.
pub open spec fn collides(s: Machine, vx: int, vy: int, n: int) -> bool {
    hits_before(s, vx, vy, n, 0)
}

/// `Dxyn`: the sprite is drawn at (`Vx`, `Vy`) as read before the
/// instruction, `VF` tells whether it collided, and the dirty flag is set.
pub open spec fn draw(s: Machine, x: int, y: int, n: int) -> Machine {
    let vx = s.v[x] as int;
    let vy = s.v[y] as int;
    Machine {
        gfx: blit(s, vx, vy, n),
        v: s.v.update(
            15,
            if collides(s, vx, vy, n) {
                1u8
            } else {
                0u8
            },
        ),
        draw_flag: true,
        ..s
    }
}

/// `8xy?`: the register-to-register operations. `Vy` is always the value
/// from before the instruction. The flag is written before the result, and
/// subtraction and shift read `Vx` after the flag: with `x` equal to 15,
/// where flag and result share a register, they work on the flag, and the
/// result is what stays in `VF`.
pub open spec fn alu(s: Machine, x: int, y: int, n: int) -> Machine {
    let vx = s.v[x];
    let vy = s.v[y];
    if n == 0 {
        s.with_v(x, vy)
    } else if n == 1 {
        s.with_v(x, vx | vy)
    } else if n == 2 {
        s.with_v(x, vx & vy)
    } else if n == 3 {
        s.with_v(x, vx ^ vy)
    } else if n == 4 {
        s.with_v(
            15,
            if vx + vy > 255 {
                1u8
            } else {
                0u8
            },
        ).with_v(x, wrap8(vx + vy))
    } else if n == 5 {
        let f = s.with_v(
            15,
            if vx > vy {
                1u8
            } else {
                0u8
            },
        );
        f.with_v(x, wrap8(f.v[x] - vy))
    } else if n == 6 {
        let f = s.with_v(15, (vx % 2) as u8);
        f.with_v(x, f.v[x] / 2)
    } else if n == 7 {
        let f = s.with_v(
            15,
            if vy > vx {
                1u8
            } else {
                0u8
            },
        );
        f.with_v(x, wrap8(vy - f.v[x]))
    } else if n == 0xE {
        let f = s.with_v(15, vx / 128);
        f.with_v(x, wrap8(f.v[x] * 2))
    } else {
        s
    }
}

/// Memory after `Fx55`: registers `V0..=Vx` stored from the index register on.
pub open spec fn stored(s: Machine, x: int) -> Seq<u8> {
    Seq::new(
        4096,
        |a: int|
            if (a - s.i) % 4096 <= x {
                s.v[(a - s.i) % 4096]
            } else {
                s.memory[a]
            },
    )
}

/// Registers after `Fx65`: `V0..=Vx` loaded from the index register on.
pub open spec fn loaded(s: Machine, x: int) -> Seq<u8> {
    Seq::new(
        16,
        |k: int|
            if k <= x {
                s.memory[cell(s.i + k)]
            } else {
                s.v[k]
            },
    )
}

/// Memory after `Fx33`: hundreds, tens and units of `value` at the index
/// register and the two cells after it.
pub open spec fn with_bcd(s: Machine, value: u8) -> Seq<u8> {
    s.memory.update(cell(s.i as int), value / 100).update(
        cell(s.i + 1),
        (value / 10) % 10,
    ).update(cell(s.i + 2), value % 10)
}

/// `Fx??`: timers, key wait, index register and memory transfers.
pub open spec fn misc(s: Machine, x: int, kk: u8) -> (Machine, Signal) {
    let vx = s.v[x];
    if kk == 0x07 {
        (s.with_v(x, s.delay_timer).advance(2), Signal::Executed)
    } else if kk == 0x0A {
        if first_key(s.keypad) < 16 {
            (s.with_v(x, first_key(s.keypad) as u8).advance(2), Signal::Executed)
        } else {
            (s, Signal::Executed)
        }
    } else if kk == 0x15 {
        (Machine { delay_timer: vx, ..s }.advance(2), Signal::Executed)
    } else if kk == 0x18 {
        (Machine { sound_timer: vx, ..s }.advance(2), Signal::Executed)
    } else if kk == 0x1E {
        (Machine { i: wrap16(s.i + vx), ..s }.advance(2), Signal::Executed)
    } else if kk == 0x29 {
        (Machine { i: (0x50 + vx * 5) as u16, ..s }.advance(2), Signal::Executed)
    } else if kk == 0x33 {
        (Machine { memory: with_bcd(s, vx), ..s }.advance(2), Signal::Executed)
    } else if kk == 0x55 {
        (Machine { memory: stored(s, x), ..s }.advance(2), Signal::Executed)
    } else if kk == 0x65 {
        (Machine { v: loaded(s, x), ..s }.advance(2), Signal::Executed)
    } else {
        (s.advance(2), Signal::UnknownOpcode)
    }
}

/// The state after instruction `op`, and what it signals. `rnd` is the byte
/// that `Cxkk` draws; no other instruction reads it.
pub open spec fn execute(s: Machine, op: u16, rnd: u8) -> (Machine, Signal) {
    let class = op_class(op);
    let x = op_x(op);
    let y = op_y(op);
    let n = op_n(op);
    let kk = op_kk(op);
    let nnn = op_nnn(op);
    if class == 0x0 {
        if kk == 0xE0 {
            (
                Machine { gfx: Seq::new(2048, |k: int| 0u8), draw_flag: true, ..s }.advance(2),
                Signal::Executed,
            )
        } else if kk == 0xEE {
            if 1 <= s.sp <= 16 {
                (
                    Machine { sp: (s.sp - 1) as u8, pc: wrap16(s.stack[s.sp - 1] + 2), ..s },
                    Signal::Executed,
                )
            } else {
                (s.advance(2), Signal::StackUnderflow)
            }
        } else {
            (s.advance(2), Signal::UnknownOpcode)
        }
    } else if class == 0x1 {
        (Machine { pc: nnn, ..s }, Signal::Executed)
    } else if class == 0x2 {
        if s.sp < 16 {
            (
                Machine {
                    stack: s.stack.update(s.sp as int, s.pc),
                    sp: (s.sp + 1) as u8,
                    pc: nnn,
                    ..s
                },
                Signal::Executed,
            )
        } else {
            (s.advance(2), Signal::StackOverflow)
        }
    } else if class == 0x3 {
        (s.skip_if(s.v[x] == kk), Signal::Executed)
    } else if class == 0x4 {
        (s.skip_if(s.v[x] != kk), Signal::Executed)
    } else if class == 0x5 {
        (s.skip_if(s.v[x] == s.v[y]), Signal::Executed)
    } else if class == 0x6 {
        (s.with_v(x, kk).advance(2), Signal::Executed)
    } else if class == 0x7 {
        (s.with_v(x, wrap8(s.v[x] + kk)).advance(2), Signal::Executed)
    } else if class == 0x8 {
        (
            alu(s, x, y, n).advance(2),
            if n <= 7 || n == 0xE {
                Signal::Executed
            } else {
                Signal::UnknownOpcode
            },
        )
    } else if class == 0x9 {
        (s.skip_if(s.v[x] != s.v[y]), Signal::Executed)
    } else if class == 0xA {
        (Machine { i: nnn, ..s }.advance(2), Signal::Executed)
    } else if class == 0xB {
        (Machine { pc: (nnn + s.v[0]) as u16, ..s }, Signal::Executed)
    } else if class == 0xC {
        (s.with_v(x, rnd & kk).advance(2), Signal::Executed)
    } else if class == 0xD {
        (draw(s, x, y, n).advance(2), Signal::Executed)
    } else if class == 0xE {
        if kk == 0x9E {
            (s.skip_if(key_down(s.keypad, s.v[x] as int)), Signal::Executed)
        } else if kk == 0xA1 {
            (s.skip_if(!key_down(s.keypad, s.v[x] as int)), Signal::Executed)
        } else {
            (s.advance(2), Signal::UnknownOpcode)
        }
    } else {
        misc(s, x, kk)
    }
}

/// A timer after one cycle: one less, but never below zero.
pub open spec fn tick(t: u8) -> u8 {
    if t > 0 {
        (t - 1) as u8
    } else {
        0
    }
}

/// The state with both timers ticked.
pub open spec fn ticked(s: Machine) -> Machine {
    Machine { delay_timer: tick(s.delay_timer), sound_timer: tick(s.sound_timer), ..s }
}

/// The state after one whole cycle: fetch, execute, tick.
pub open spec fn cycle(s: Machine, rnd: u8) -> Machine {
    ticked(execute(s, fetch(s), rnd).0)
}

/// The state after one cycle for each byte of `rnds`, in order, each cycle
/// drawing its byte.
pub open spec fn cycles(s: Machine, rnds: Seq<u8>) -> Machine
    decreases rnds.len(),
{
    if rnds.len() == 0 {
        s
    } else {
        cycle(cycles(s, rnds.drop_last()), rnds.last())
    }
}

/// The signal of the instruction that one cycle executes.
pub open spec fn cycle_signal(s: Machine, rnd: u8) -> Signal {
    execute(s, fetch(s), rnd).1
}

/// Whether one cycle sounds the tone: the sound timer stands at 1 when it is
/// ticked.
pub open spec fn cycle_beeps(s: Machine, rnd: u8) -> bool {
    execute(s, fetch(s), rnd).0.sound_timer == 1
}

} // verus!
