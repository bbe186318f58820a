//! The chase animation: which frame is shown when.
//!
//! Dots are numbered row-major, position `k` being row `k / WIDTH`, column
//! `k % WIDTH`. Frame `i` of the table lights position `i` and its point
//! reflection `DOTS - 1 - i`, a symmetric chase across the grid. The driver
//! loop steps through the table cyclically, one frame every `FRAME_MILLIS`
//! milliseconds of the timebase.

use vstd::prelude::*;

use crate::frame::{bit_set, dot_shift, Frame};
use crate::{DOTS, HEIGHT, WIDTH};

verus! {

/// How long each animation frame is shown, in milliseconds.
pub const FRAME_MILLIS: u32 = 200;

/// Dot position `k` (row-major) of frame `f` is lit.
pub open spec fn pos_lit(f: Frame, k: int) -> bool {
    f.dot(k / (WIDTH as int), k % (WIDTH as int))
}

/// `f` is frame `i` of the chase pattern: exactly positions `i` and
/// `DOTS - 1 - i` are lit.
pub open spec fn chase_frame(i: int, f: Frame) -> bool {
    forall|k: int| 0 <= k < DOTS ==> (pos_lit(f, k) <==> (k == i || k == DOTS - 1 - i))
}

/// Builds frame `i` of the animation: dot `i` and its point reflection
/// `DOTS - 1 - i` lit, nothing else.
pub fn frame_at(i: usize) -> (f: Frame)
    requires
        i < DOTS,
    ensures
        f.wf(),
        chase_frame(i as int, f),
{
    let raw: u16 = 1u16 << (i as u16) | 1u16 << ((DOTS - 1) as u16) >> (i as u16);
    let f = Frame::new(raw);
    proof {
        lemma_chase_bits(i as u16);
        assert forall|k: int| 0 <= k < DOTS implies (pos_lit(f, k) <==> (k == i || k == DOTS - 1
            - i)) by {
            let r = k / (WIDTH as int);
            let c = k % (WIDTH as int);
            assert(k == (WIDTH as int) * r + c && 0 <= c < WIDTH && 0 <= r < HEIGHT) by (nonlinear_arith)
                requires
                    0 <= k < 15,
                    r == k / 5,
                    c == k % 5,
            ;
            assert(dot_shift(r, c) == 14 - k);
            let j = (14 - k) as u16;
            assert(pos_lit(f, k) == bit_set(f.bits(), j));
            assert(bit_set(f.bits(), j) == bit_set(raw, j));
            assert(raw == 1u16 << (i as u16) | 1u16 << 14u16 >> (i as u16));
            assert(bit_set(1u16 << (i as u16) | 1u16 << 14u16 >> (i as u16), j) <==> (j == (
            i as u16) || j + (i as u16) == 14));
        }
    }
    f
}

/// The raw pattern built for chase frame `i` has exactly bits `i` and
/// `14 - i` set.
proof fn lemma_chase_bits(i: u16)
    by (bit_vector)
    requires
        i < 15,
    ensures
        forall|j: u16| j < 15 ==> (bit_set(1u16 << i | 1u16 << 14u16 >> i, j) <==> (j == i || j
            + i == 14)),
{
}

/// The full animation table: `DOTS` frames, frame `i` lighting positions
/// `i` and `DOTS - 1 - i`.
pub fn table() -> (t: Vec<Frame>)
    ensures
        t@.len() == DOTS,
        forall|i: int| 0 <= i < DOTS ==> t@[i].wf() && chase_frame(i, t@[i]),
{
    let mut t: Vec<Frame> = Vec::new();
    let mut i: usize = 0;
    while i < DOTS
        invariant
            i <= DOTS,
            t@.len() == i,
            forall|j: int| 0 <= j < i ==> t@[j].wf() && chase_frame(j, t@[j]),
        decreases DOTS - i,
    {
        t.push(frame_at(i));
        i += 1;
    }
    t
}

/// Which animation frame is shown at elapsed time `ms`: the table is
/// stepped every `FRAME_MILLIS` milliseconds, cyclically.
pub fn frame_index(ms: u32) -> (i: usize)
    ensures
        i == ((ms / FRAME_MILLIS) as int) % (DOTS as int),
        i < DOTS,
{
    ((ms / FRAME_MILLIS) as usize) % DOTS
}

/// Chase frame `i` lights exactly two dots, or one when `i` is the centre
/// position equal to its own reflection.
pub proof fn lemma_chase_count(i: int, f: Frame)
    requires
        0 <= i < DOTS,
        chase_frame(i, f),
    ensures
        Set::new(|k: int| 0 <= k < DOTS && pos_lit(f, k)) =~= set![i, DOTS - 1 - i],
        i != DOTS - 1 - i ==> Set::new(|k: int| 0 <= k < DOTS && pos_lit(f, k)).len() == 2,
        i == DOTS - 1 - i ==> Set::new(|k: int| 0 <= k < DOTS && pos_lit(f, k)).len() == 1,
{
    let s = Set::new(|k: int| 0 <= k < DOTS && pos_lit(f, k));
    assert(s =~= set![i, DOTS - 1 - i]);
    assert(set![i, DOTS - 1 - i] == Set::empty().insert(i).insert(DOTS - 1 - i));
    if i != DOTS - 1 - i {
        assert(s.len() == 2);
    } else {
        assert(set![i, DOTS - 1 - i] =~= Set::empty().insert(i));
        assert(s.len() == 1);
    }
}

} // verus!
