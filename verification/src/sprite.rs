//! How a sprite lies on the framebuffer: the facts behind the drawing loop.

use vstd::prelude::*;
use crate::model::{cell, hits_before, lit_before, sprite_bit, target, Machine};

verus! {

/// A cell lies under sprite pixel (`r`, `c`) exactly if it is that pixel's
/// target: rows and columns wrap without overlap.
pub proof fn lemma_target_unique(vx: int, vy: int, r: int, c: int, k: int)
    requires
        0 <= vx < 256,
        0 <= vy < 256,
        0 <= r < 32,
        0 <= c < 64,
        0 <= k < 2048,
    ensures
        ((k % 64 - vx) % 64 == c && (k / 64 - vy) % 32 == r) <==> k == target(vx, vy, r, c),
{
}

/// Taking one more sprite pixel into account adds its target, if its bit is
/// set, to the covered cells and changes no other.
pub proof fn lemma_lit_step(s: Machine, vx: int, vy: int, r: int, c: int, k: int)
    requires
        0 <= vx < 256,
        0 <= vy < 256,
        0 <= r < 32,
        0 <= c < 8,
        0 <= k < 2048,
    ensures
        lit_before(s, vx, vy, r, c + 1, k) <==> (lit_before(s, vx, vy, r, c, k) || (k == target(
            vx,
            vy,
            r,
            c,
        ) && sprite_bit(s.memory[cell(s.i + r)], c))),
        k == target(vx, vy, r, c) ==> !lit_before(s, vx, vy, r, c, k),
{
    lemma_target_unique(vx, vy, r, c, k);
}

/// A finished row is the start of the next one.
pub proof fn lemma_lit_row_end(s: Machine, vx: int, vy: int, r: int, k: int)
    requires
        0 <= k < 2048,
    ensures
        lit_before(s, vx, vy, r, 8, k) <==> lit_before(s, vx, vy, r + 1, 0, k),
{
}

/// Taking one more sprite pixel into account adds a collision exactly if its
/// bit is set and its target cell is set.
pub proof fn lemma_hits_step(s: Machine, vx: int, vy: int, r: int, c: int)
    requires
        0 <= vx < 256,
        0 <= vy < 256,
        0 <= r < 32,
        0 <= c < 8,
    ensures
        hits_before(s, vx, vy, r, c + 1) <==> (hits_before(s, vx, vy, r, c) || (sprite_bit(
            s.memory[cell(s.i + r)],
            c,
        ) && s.gfx[target(vx, vy, r, c)] == 1)),
{
    let t = target(vx, vy, r, c);
    assert(0 <= t < 2048);
    lemma_lit_step(s, vx, vy, r, c, t);
    if hits_before(s, vx, vy, r, c) {
        let w = choose|k: int|
            0 <= k < 2048 && #[trigger] lit_before(s, vx, vy, r, c, k) && s.gfx[k] == 1;
        lemma_lit_step(s, vx, vy, r, c, w);
    }
    if hits_before(s, vx, vy, r, c + 1) {
        let w = choose|k: int|
            0 <= k < 2048 && #[trigger] lit_before(s, vx, vy, r, c + 1, k) && s.gfx[k] == 1;
        lemma_lit_step(s, vx, vy, r, c, w);
    }
}

/// No collision is gained or lost between the end of a row and the start of
/// the next.
pub proof fn lemma_hits_row_end(s: Machine, vx: int, vy: int, r: int)
    ensures
        hits_before(s, vx, vy, r, 8) <==> hits_before(s, vx, vy, r + 1, 0),
{
    if hits_before(s, vx, vy, r, 8) {
        let w = choose|k: int|
            0 <= k < 2048 && #[trigger] lit_before(s, vx, vy, r, 8, k) && s.gfx[k] == 1;
        lemma_lit_row_end(s, vx, vy, r, w);
    }
    if hits_before(s, vx, vy, r + 1, 0) {
        let w = choose|k: int|
            0 <= k < 2048 && #[trigger] lit_before(s, vx, vy, r + 1, 0, k) && s.gfx[k] == 1;
        lemma_lit_row_end(s, vx, vy, r, w);
    }
}

/// Before the first pixel nothing is covered and nothing collides.
pub proof fn lemma_nothing_drawn(s: Machine, vx: int, vy: int)
    ensures
        forall|k: int| !#[trigger] lit_before(s, vx, vy, 0, 0, k),
        !hits_before(s, vx, vy, 0, 0),
{
}

} // verus!
