//! The executable interpreter.

use vstd::prelude::*;
use crate::chance::random_byte;
use crate::font::{font_table, fontset, FONT_BASE};
use crate::laws::{lemma_cycle_keeps_wf, lemma_execute_keeps_wf};
use crate::model::{
    alu, blit, cell, collides, cycle, cycle_beeps, cycle_signal, execute, fetch, first_key,
    first_key_from, hits_before, initial, lit_before, loaded, misc, op_class, op_kk, op_n, op_nnn,
    op_x, op_y, sprite_bit, stored, target, with_font, with_rom, wrap8, Machine, Signal, HEIGHT, PROGRAM_START, WIDTH,
};
use crate::sprite::{
    lemma_hits_row_end, lemma_hits_step, lemma_lit_row_end, lemma_lit_step, lemma_nothing_drawn,
};

verus! {

/// The machine: memory, registers, stack, timers, keypad and framebuffer.
pub struct Chip8 {
    memory: [u8; 4096],
    v: [u8; 16],
    i: u16,
    pc: u16,
    /// The framebuffer, row by row, one cell per pixel, each 0 or 1.
    pub gfx: [u8; 2048],
    delay_timer: u8,
    sound_timer: u8,
    stack: [u16; 16],
    sp: u8,
    keypad: [bool; 16],
    /// Set whenever the framebuffer was written; the host clears it once it
    /// has rendered.
    pub draw_flag: bool,
}

/// How a program's length stands to the room that memory has for it.
#[derive(Clone, Copy, Debug, PartialEq, Eq, Structural)]
pub enum RomFit {
    /// The program has no bytes.
    Empty,
    /// The program fits between `0x200` and the end of memory.
    Fits,
    /// The program is longer than 3584 bytes: loading it drops the excess.
    Oversized,
}

/// Tells whether `rom` is empty, fits into memory, or would be cut short by
/// `load_rom`.
pub fn classify_rom(rom: &[u8]) -> (fit: RomFit)
    ensures
        fit == (if rom@.len() == 0 {
            RomFit::Empty
        } else if rom@.len() <= 3584 {
            RomFit::Fits
        } else {
            RomFit::Oversized
        }),
{
    if rom.len() == 0 {
        RomFit::Empty
    } else if rom.len() <= 3584 {
        RomFit::Fits
    } else {
        RomFit::Oversized
    }
}

/// What one cycle reports to the host.
#[derive(Clone, Copy, Debug, PartialEq, Eq, Structural)]
pub struct Report {
    /// The instruction word that was executed.
    pub opcode: u16,
    /// What its execution signalled.
    pub signal: Signal,
    /// Whether the sound timer reached zero in this cycle.
    pub beep: bool,
}

impl View for Chip8 {
    type V = Machine;

    closed spec fn view(&self) -> Machine {
        Machine {
            memory: self.memory@,
            v: self.v@,
            i: self.i,
            pc: self.pc,
            gfx: self.gfx@,
            delay_timer: self.delay_timer,
            sound_timer: self.sound_timer,
            stack: self.stack@,
            sp: self.sp,
            keypad: self.keypad@,
            draw_flag: self.draw_flag,
        }
    }
}

impl Chip8 {
    /// Every part of the view has its fixed size.
    pub proof fn view_shaped(&self)
        ensures
            self@.shaped(),
    {
    }

    /// A machine in its initial state.
    pub fn new() -> (machine: Chip8)
        ensures
            machine@ == initial(),
            machine@.wf(),
    {
        let mut chip8 = Chip8 {
            memory: [0; 4096],
            v: [0; 16],
            i: 0,
            pc: PROGRAM_START,
            gfx: [0; 2048],
            delay_timer: 0,
            sound_timer: 0,
            stack: [0; 16],
            sp: 0,
            keypad: [false; 16],
            draw_flag: false,
        };
        chip8.load_fontset();
        assert(chip8@.memory =~= initial().memory);
        assert(chip8@.v =~= initial().v);
        assert(chip8@.gfx =~= initial().gfx);
        assert(chip8@.stack =~= initial().stack);
        assert(chip8@.keypad =~= initial().keypad);
        chip8
    }

    /// Writes the glyph table into memory at `0x50`.
    pub fn load_fontset(&mut self)
        ensures
            final(self)@ == (Machine { memory: with_font(old(self)@.memory), ..old(self)@ }),
    {
        let table: [u8; 80] = font_table();
        let ghost before = self@;
        let mut k: usize = 0;
        while k < 80
            invariant
                k <= 80,
                table@ == fontset(),
                self@ == (Machine { memory: self@.memory, ..before }),
                forall|a: int|
                    0 <= a < 4096 ==> #[trigger] self@.memory[a] == if 0x50 <= a < 0x50 + k {
                        fontset()[a - 0x50]
                    } else {
                        before.memory[a]
                    },
            decreases 80 - k,
        {
            self.memory[FONT_BASE as usize + k] = table[k];
            k += 1;
        }
        assert(self@.memory =~= with_font(before.memory));
    }

    /// Copies `rom` into memory from `0x200` on. Bytes that would land at or
    /// past address 4096 are dropped.
    pub fn load_rom(&mut self, rom: &[u8])
        ensures
            final(self)@ == (Machine { memory: with_rom(old(self)@.memory, rom@), ..old(self)@ }),
    {
        let ghost before = self@;
        let count: usize = if rom.len() < 3584 {
            rom.len()
        } else {
            3584
        };
        let mut k: usize = 0;
        while k < count
            invariant
                k <= count <= 3584,
                count <= rom@.len(),
                count == 3584 || count == rom@.len(),
                self@ == (Machine { memory: self@.memory, ..before }),
                forall|a: int|
                    0 <= a < 4096 ==> #[trigger] self@.memory[a] == if 0x200 <= a < 0x200 + k {
                        rom@[a - 0x200]
                    } else {
                        before.memory[a]
                    },
            decreases count - k,
        {
            self.memory[PROGRAM_START as usize + k] = rom[k];
            k += 1;
        }
        assert(self@.memory =~= with_rom(before.memory, rom@));
    }

    /// Replaces the key states by `keys`, indexed by key number.
    pub fn set_keys(&mut self, keys: [bool; 16])
        ensures
            final(self)@ == (Machine { keypad: keys@, ..old(self)@ }),
    {
        self.keypad = keys;
    }

    /// The instruction word at the program counter, high byte first.
    pub fn fetch_opcode(&self) -> (opcode: u16)
        ensures
            opcode == fetch(self@),
    {
        let at: usize = self.pc as usize;
        let high: u16 = self.memory[at % 4096] as u16;
        let low: u16 = self.memory[(at + 1) % 4096] as u16;
        high * 256 + low
    }

    /// Runs one cycle: fetches the instruction at the program counter,
    /// executes it, then ticks both timers. A `Cxkk` instruction draws a
    /// random byte; every other instruction is executed as
    /// `cycle_with(0)` would.
    pub fn emulate_cycle(&mut self) -> (report: Report)
        ensures
            exists|rnd: u8|
                final(self)@ == #[trigger] cycle(old(self)@, rnd) && report.signal == cycle_signal(
                    old(self)@,
                    rnd,
                ) && report.beep == cycle_beeps(old(self)@, rnd),
            op_class(fetch(old(self)@)) != 0xC ==> final(self)@ == cycle(old(self)@, 0),
            op_class(fetch(old(self)@)) != 0xC ==> report.signal == cycle_signal(old(self)@, 0),
            op_class(fetch(old(self)@)) != 0xC ==> report.beep == cycle_beeps(old(self)@, 0),
            report.opcode == fetch(old(self)@),
            old(self)@.wf() ==> final(self)@.wf(),
    {
        let opcode: u16 = self.fetch_opcode();
        let rnd: u8 = if class_of(opcode) == 0xC {
            random_byte()
        } else {
            0
        };
        self.cycle_with(rnd)
    }

    /// Runs one cycle in which `Cxkk`, if it is the instruction, draws `rnd`.
    pub fn cycle_with(&mut self, rnd: u8) -> (report: Report)
        ensures
            final(self)@ == cycle(old(self)@, rnd),
            report.opcode == fetch(old(self)@),
            report.signal == cycle_signal(old(self)@, rnd),
            report.beep == cycle_beeps(old(self)@, rnd),
            old(self)@.wf() ==> final(self)@.wf(),
    {
        proof {
            if self@.wf() {
                lemma_cycle_keeps_wf(self@, rnd);
            }
        }
        let opcode: u16 = self.fetch_opcode();
        let signal: Signal = self.execute_opcode(opcode, rnd);
        if self.delay_timer > 0 {
            self.delay_timer -= 1;
        }
        let beep: bool = self.sound_timer == 1;
        if self.sound_timer > 0 {
            self.sound_timer -= 1;
        }
        Report { opcode, signal, beep }
    }

    /// Executes the instruction `opcode` on the current state. `rnd` is the
    /// byte that `Cxkk` draws.
    pub fn execute_opcode(&mut self, opcode: u16, rnd: u8) -> (signal: Signal)
        ensures
            final(self)@ == execute(old(self)@, opcode, rnd).0,
            signal == execute(old(self)@, opcode, rnd).1,
            old(self)@.wf() ==> final(self)@.wf(),
    {
        let ghost before = self@;
        proof {
            if before.wf() {
                lemma_execute_keeps_wf(before, opcode, rnd);
            }
        }
        let class: u16 = class_of(opcode);
        let x: usize = x_of(opcode);
        let y: usize = y_of(opcode);
        let n: u8 = n_of(opcode);
        let kk: u8 = kk_of(opcode);
        let nnn: u16 = nnn_of(opcode);
        let mut signal: Signal = Signal::Executed;
        if class == 0x0 {
            if kk == 0xE0 {
                self.gfx = [0; 2048];
                self.draw_flag = true;
                self.advance(2);
                assert(self@.gfx =~= Seq::new(2048, |k: int| 0u8));
            } else if kk == 0xEE {
                if 1 <= self.sp && self.sp <= 16 {
                    self.sp -= 1;
                    self.pc = self.stack[self.sp as usize].wrapping_add(2);
                } else {
                    signal = Signal::StackUnderflow;
                    self.advance(2);
                }
            } else {
                signal = Signal::UnknownOpcode;
                self.advance(2);
            }
        } else if class == 0x1 {
            self.pc = nnn;
        } else if class == 0x2 {
            if self.sp < 16 {
                self.stack[self.sp as usize] = self.pc;
                self.sp += 1;
                self.pc = nnn;
            } else {
                signal = Signal::StackOverflow;
                self.advance(2);
            }
        } else if class == 0x3 {
            self.skip_next_if(self.v[x] == kk);
        } else if class == 0x4 {
            self.skip_next_if(self.v[x] != kk);
        } else if class == 0x5 {
            self.skip_next_if(self.v[x] == self.v[y]);
        } else if class == 0x6 {
            self.set_v(x, kk);
            self.advance(2);
        } else if class == 0x7 {
            self.set_v(x, add8(self.v[x], kk));
            self.advance(2);
        } else if class == 0x8 {
            if !(n <= 7 || n == 0xE) {
                signal = Signal::UnknownOpcode;
            }
            self.execute_alu(x, y, n);
            self.advance(2);
        } else if class == 0x9 {
            self.skip_next_if(self.v[x] != self.v[y]);
        } else if class == 0xA {
            self.i = nnn;
            self.advance(2);
        } else if class == 0xB {
            self.pc = nnn + self.v[0] as u16;
        } else if class == 0xC {
            self.set_v(x, rnd & kk);
            self.advance(2);
        } else if class == 0xD {
            let vx: u8 = self.v[x];
            let vy: u8 = self.v[y];
            let hit: bool = self.draw_sprite(vx, vy, n);
            self.set_v(0xF, flag(hit));
            self.draw_flag = true;
            self.advance(2);
        } else if class == 0xE {
            let key: usize = self.v[x] as usize;
            let down: bool = key < 16 && self.keypad[key];
            if kk == 0x9E {
                self.skip_next_if(down);
            } else if kk == 0xA1 {
                self.skip_next_if(!down);
            } else {
                signal = Signal::UnknownOpcode;
                self.advance(2);
            }
        } else {
            signal = self.execute_misc(x, kk);
        }
        signal
    }

    /// Moves the program counter past this instruction, and past the next one
    /// too if `cond` holds.
    fn skip_next_if(&mut self, cond: bool)
        ensures
            final(self)@ == old(self)@.skip_if(cond),
    {
        self.advance(
            if cond {
                4
            } else {
                2
            },
        );
    }

    /// The register-to-register operation `n` on `Vx` and `Vy`.
    fn execute_alu(&mut self, x: usize, y: usize, n: u8)
        requires
            x < 16,
            y < 16,
        ensures
            final(self)@ == alu(old(self)@, x as int, y as int, n as int),
    {
        let vx: u8 = self.v[x];
        let vy: u8 = self.v[y];
        if n == 0 {
            self.set_v(x, vy);
        } else if n == 1 {
            self.set_v(x, vx | vy);
        } else if n == 2 {
            self.set_v(x, vx & vy);
        } else if n == 3 {
            self.set_v(x, vx ^ vy);
        } else if n == 4 {
            self.set_v(0xF, flag(vx as u16 + vy as u16 > 255));
            self.set_v(x, add8(vx, vy));
        } else if n == 5 {
            self.set_v(0xF, flag(vx > vy));
            self.set_v(x, sub8(self.v[x], vy));
        } else if n == 6 {
            self.set_v(0xF, low_bit(vx));
            self.set_v(x, halve(self.v[x]));
        } else if n == 7 {
            self.set_v(0xF, flag(vy > vx));
            self.set_v(x, sub8(vy, self.v[x]));
        } else if n == 0xE {
            self.set_v(0xF, high_bit(vx));
            self.set_v(x, double(self.v[x]));
        }
    }

    /// Sets register `x` to `value`.
    fn set_v(&mut self, x: usize, value: u8)
        requires
            x < 16,
        ensures
            final(self)@ == old(self)@.with_v(x as int, value),
    {
        self.v[x] = value;
    }

    /// Moves the program counter forward by `by`, wrapping at sixteen bits.
    fn advance(&mut self, by: u16)
        ensures
            final(self)@ == old(self)@.advance(by as int),
    {
        self.pc = self.pc.wrapping_add(by);
    }
}

/// 1 if `cond` holds, else 0.
fn flag(cond: bool) -> (bit: u8)
    ensures
        bit == (if cond {
            1u8
        } else {
            0u8
        }),
{
    if cond {
        1
    } else {
        0
    }
}

/// The sum of `a` and `b` modulo 256.
fn add8(a: u8, b: u8) -> (sum: u8)
    ensures
        sum == wrap8(a + b),
{
    a.wrapping_add(b)
}

/// The difference of `a` and `b` modulo 256.
fn sub8(a: u8, b: u8) -> (difference: u8)
    ensures
        difference == wrap8(a - b),
{
    a.wrapping_sub(b)
}

/// The lowest bit of `a`.
fn low_bit(a: u8) -> (bit: u8)
    ensures
        bit == a % 2,
{
    assert(a & 0x1 == a % 2) by (bit_vector);
    a & 0x1
}

/// The highest bit of `a`.
fn high_bit(a: u8) -> (bit: u8)
    ensures
        bit == a / 128,
{
    assert((a & 0x80) >> 7 == a / 128) by (bit_vector);
    (a & 0x80) >> 7
}

/// `a` shifted right by one bit.
fn halve(a: u8) -> (half: u8)
    ensures
        half == a / 2,
{
    assert(a >> 1 == a / 2) by (bit_vector);
    a >> 1
}

/// `a` shifted left by one bit, the top bit dropped.
fn double(a: u8) -> (twice: u8)
    ensures
        twice == wrap8(a * 2),
{
    a.wrapping_add(a)
}

/// The top nibble of `opcode`.
fn class_of(opcode: u16) -> (class: u16)
    ensures
        class == op_class(opcode),
        class < 16,
{
    assert(opcode >> 12 == opcode / 4096) by (bit_vector);
    opcode >> 12
}

/// The second nibble of `opcode`.
fn x_of(opcode: u16) -> (x: usize)
    ensures
        x == op_x(opcode),
        x < 16,
{
    assert((opcode & 0x0F00) >> 8 == (opcode / 256) % 16) by (bit_vector);
    ((opcode & 0x0F00) >> 8) as usize
}

/// The third nibble of `opcode`.
fn y_of(opcode: u16) -> (y: usize)
    ensures
        y == op_y(opcode),
        y < 16,
{
    assert((opcode & 0x00F0) >> 4 == (opcode / 16) % 16) by (bit_vector);
    ((opcode & 0x00F0) >> 4) as usize
}

/// The last nibble of `opcode`.
fn n_of(opcode: u16) -> (n: u8)
    ensures
        n == op_n(opcode),
        n < 16,
{
    assert(opcode & 0x000F == opcode % 16) by (bit_vector);
    (opcode & 0x000F) as u8
}

/// The low byte of `opcode`.
fn kk_of(opcode: u16) -> (kk: u8)
    ensures
        kk == op_kk(opcode),
{
    assert(opcode & 0x00FF == opcode % 256) by (bit_vector);
    (opcode & 0x00FF) as u8
}

/// The low twelve bits of `opcode`.
fn nnn_of(opcode: u16) -> (nnn: u16)
    ensures
        nnn == op_nnn(opcode),
        nnn < 4096,
{
    assert(opcode & 0x0FFF == opcode % 4096) by (bit_vector);
    opcode & 0x0FFF
}

impl Chip8 {
    /// The instruction `Fx??` with low byte `kk`.
    fn execute_misc(&mut self, x: usize, kk: u8) -> (signal: Signal)
        requires
            x < 16,
        ensures
            final(self)@ == misc(old(self)@, x as int, kk).0,
            signal == misc(old(self)@, x as int, kk).1,
    {
        let ghost before = self@;
        let vx: u8 = self.v[x];
        let at: usize = self.i as usize;
        if kk == 0x07 {
            self.set_v(x, self.delay_timer);
        } else if kk == 0x0A {
            let key: u8 = self.lowest_key();
            if key < 16 {
                self.set_v(x, key);
            } else {
                return Signal::Executed;
            }
        } else if kk == 0x15 {
            self.delay_timer = vx;
        } else if kk == 0x18 {
            self.sound_timer = vx;
        } else if kk == 0x1E {
            self.i = self.i.wrapping_add(vx as u16);
        } else if kk == 0x29 {
            self.i = FONT_BASE + (vx as u16) * 5;
        } else if kk == 0x33 {
            self.memory[at % 4096] = vx / 100;
            self.memory[(at + 1) % 4096] = (vx / 10) % 10;
            self.memory[(at + 2) % 4096] = vx % 10;
        } else if kk == 0x55 {
            let mut k: usize = 0;
            while k <= x
                invariant
                    k <= x + 1,
                    x < 16,
                    at == before.i,
                    self@ == (Machine { memory: self@.memory, ..before }),
                    forall|a: int|
                        0 <= a < 4096 ==> #[trigger] self@.memory[a] == if (a - before.i) % 4096
                            < k {
                            before.v[(a - before.i) % 4096]
                        } else {
                            before.memory[a]
                        },
                decreases x + 1 - k,
            {
                self.memory[(at + k) % 4096] = self.v[k];
                k += 1;
            }
            assert(self@.memory =~= stored(before, x as int));
        } else if kk == 0x65 {
            let mut k: usize = 0;
            while k <= x
                invariant
                    k <= x + 1,
                    x < 16,
                    at == before.i,
                    self@ == (Machine { v: self@.v, ..before }),
                    forall|j: int|
                        0 <= j < 16 ==> #[trigger] self@.v[j] == if j < k {
                            before.memory[cell(before.i + j)]
                        } else {
                            before.v[j]
                        },
                decreases x + 1 - k,
            {
                self.v[k] = self.memory[(at + k) % 4096];
                k += 1;
            }
            assert(self@.v =~= loaded(before, x as int));
        } else {
            self.advance(2);
            return Signal::UnknownOpcode;
        }
        self.advance(2);
        Signal::Executed
    }

    /// The lowest pressed key; 16 if no key is pressed.
    fn lowest_key(&self) -> (key: u8)
        ensures
            key == first_key(self@.keypad),
            key <= 16,
    {
        let mut k: u8 = 0;
        while k < 16
            invariant
                k <= 16,
                first_key(self@.keypad) == first_key_from(self@.keypad, k as int),
            decreases 16 - k,
        {
            if self.keypad[k as usize] {
                return k;
            }
            k += 1;
        }
        k
    }

    /// Flips every framebuffer cell that a set bit of the sprite covers. The
    /// sprite is the `n` memory bytes from the index register on, placed at
    /// (`vx`, `vy`). Tells whether a set pixel was turned off.
    fn draw_sprite(&mut self, vx: u8, vy: u8, n: u8) -> (hit: bool)
        requires
            n < 16,
        ensures
            final(self)@ == (Machine {
                gfx: blit(old(self)@, vx as int, vy as int, n as int),
                ..old(self)@
            }),
            hit == collides(old(self)@, vx as int, vy as int, n as int),
    {
        let ghost before = self@;
        let ghost (x, y) = (vx as int, vy as int);
        let mut hit: bool = false;
        let mut row: u8 = 0;
        proof {
            lemma_nothing_drawn(before, x, y);
        }
        while row < n
            invariant
                row <= n < 16,
                x == vx,
                y == vy,
                self@ == (Machine { gfx: self@.gfx, ..before }),
                self@.gfx.len() == 2048,
                forall|k: int|
                    0 <= k < 2048 ==> #[trigger] self@.gfx[k] == if lit_before(
                        before,
                        x,
                        y,
                        row as int,
                        0,
                        k,
                    ) {
                        before.gfx[k] ^ 1
                    } else {
                        before.gfx[k]
                    },
                hit == hits_before(before, x, y, row as int, 0),
            decreases n - row,
        {
            let bits: u8 = self.memory[(self.i as usize + row as usize) % 4096];
            let py: usize = (vy as usize + row as usize) % HEIGHT;
            let mut col: u8 = 0;
            while col < 8
                invariant
                    col <= 8,
                    row < n < 16,
                    x == vx,
                    y == vy,
                    py == (vy + row) % 32,
                    bits == before.memory[cell(before.i + row)],
                    self@ == (Machine { gfx: self@.gfx, ..before }),
                    self@.gfx.len() == 2048,
                    forall|k: int|
                        0 <= k < 2048 ==> #[trigger] self@.gfx[k] == if lit_before(
                            before,
                            x,
                            y,
                            row as int,
                            col as int,
                            k,
                        ) {
                            before.gfx[k] ^ 1
                        } else {
                            before.gfx[k]
                        },
                    hit == hits_before(before, x, y, row as int, col as int),
                decreases 8 - col,
            {
                let px: usize = (vx as usize + col as usize) % WIDTH;
                let at: usize = py * WIDTH + px;
                proof {
                    assert(at == target(x, y, row as int, col as int));
                    lemma_hits_step(before, x, y, row as int, col as int);
                    assert forall|k: int| 0 <= k < 2048 implies (lit_before(
                        before,
                        x,
                        y,
                        row as int,
                        col + 1,
                        k,
                    ) <==> (lit_before(before, x, y, row as int, col as int, k) || (k == at
                        && sprite_bit(bits, col as int)))) && (k == at ==> !lit_before(
                        before,
                        x,
                        y,
                        row as int,
                        col as int,
                        k,
                    )) by {
                        lemma_lit_step(before, x, y, row as int, col as int, k);
                    }
                }
                if bits & (0x80u8 >> col) != 0 {
                    if self.gfx[at] == 1 {
                        hit = true;
                    }
                    self.gfx[at] = self.gfx[at] ^ 1;
                }
                col += 1;
            }
            proof {
                lemma_hits_row_end(before, x, y, row as int);
                assert forall|k: int| 0 <= k < 2048 implies (lit_before(
                    before,
                    x,
                    y,
                    row as int,
                    8,
                    k,
                ) <==> lit_before(before, x, y, row + 1, 0, k)) by {
                    lemma_lit_row_end(before, x, y, row as int, k);
                }
            }
            row += 1;
        }
        assert(self@.gfx =~= blit(before, x, y, n as int));
        hit
    }

    /// The program counter.
    pub fn pc(&self) -> (pc: u16)
        ensures
            pc == self@.pc,
    {
        self.pc
    }

    /// The index register.
    pub fn index(&self) -> (i: u16)
        ensures
            i == self@.i,
    {
        self.i
    }

    /// The stack pointer: the number of return addresses on the stack.
    pub fn sp(&self) -> (sp: u8)
        ensures
            sp == self@.sp,
    {
        self.sp
    }

    /// The delay timer.
    pub fn delay_timer(&self) -> (t: u8)
        ensures
            t == self@.delay_timer,
    {
        self.delay_timer
    }

    /// The sound timer.
    pub fn sound_timer(&self) -> (t: u8)
        ensures
            t == self@.sound_timer,
    {
        self.sound_timer
    }

    /// The registers `V0` to `VF`.
    pub fn registers(&self) -> (v: &[u8; 16])
        ensures
            v@ == self@.v,
    {
        &self.v
    }

    /// The whole memory.
    pub fn memory(&self) -> (memory: &[u8; 4096])
        ensures
            memory@ == self@.memory,
    {
        &self.memory
    }

    /// The stack of return addresses.
    pub fn stack(&self) -> (stack: &[u16; 16])
        ensures
            stack@ == self@.stack,
    {
        &self.stack
    }

    /// The key states as last set.
    pub fn keypad(&self) -> (keys: &[bool; 16])
        ensures
            keys@ == self@.keypad,
    {
        &self.keypad
    }

    /// The framebuffer cell at column `x`, row `y`.
    pub fn pixel(&self, x: usize, y: usize) -> (value: u8)
        requires
            x < 64,
            y < 32,
        ensures
            value == self@.gfx[y * 64 + x],
    {
        self.gfx[y * 64 + x]
    }

    /// Clears the dirty flag, once the framebuffer has been rendered.
    pub fn clear_draw_flag(&mut self)
        ensures
            final(self)@ == (Machine { draw_flag: false, ..old(self)@ }),
    {
        self.draw_flag = false;
    }

    /// Whether the framebuffer was written since the flag was last cleared.
    pub fn is_dirty(&self) -> (dirty: bool)
        ensures
            dirty == self@.draw_flag,
    {
        self.draw_flag
    }
}

} // verus!
