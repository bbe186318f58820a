//! Bit-packed snapshot of which of the 15 dots are lit.
//!
//! Rows are stored most-significant-row-first in the packed word, and within
//! a row's five-bit chunk column 0 is the most significant bit. The bit that
//! holds dot `(r, c)` therefore sits at shift `(HEIGHT-1-r)*WIDTH +
//! (WIDTH-1-c)`. The high bit of the `u16` is spare and is kept clear.

use vstd::prelude::*;

use crate::{DOTS, HEIGHT, WIDTH};

verus! {

/// Bit `i` of `bits` is set.
pub open spec fn bit_set(bits: u16, i: u16) -> bool {
    (bits >> i) & 1u16 == 1u16
}

/// The shift at which the packed word stores dot `(r, c)`.
pub open spec fn dot_shift(r: int, c: int) -> int {
    (HEIGHT - 1 - r) * WIDTH + (WIDTH - 1 - c)
}

/// One fully specified lit/unlit state for all 15 dots.
#[derive(Clone, Copy)]
pub struct Frame(u16);

impl Frame {
    /// The packed word.
    pub closed spec fn bits(self) -> u16 {
        self.0
    }

    /// The dot at row `r`, column `c` is lit.
    pub open spec fn dot(self, r: int, c: int) -> bool {
        bit_set(self.bits(), dot_shift(r, c) as u16)
    }

    /// Every bit at or above position `DOTS` is clear.
    pub open spec fn wf(self) -> bool {
        forall|i: u16| DOTS <= i ==> !bit_set(self.bits(), i)
    }

    /// Builds a frame from a raw pattern, clearing every bit at or above
    /// position `DOTS`. Total: out-of-range bits are silently normalized.
    pub fn new(frame: u16) -> (r: Self)
        ensures
            r.wf(),
            forall|i: u16| i < DOTS ==> bit_set(r.bits(), i) == bit_set(frame, i),
    {
        let masked = frame & !(u16::MAX << (WIDTH * HEIGHT) as u16);
        proof {
            lemma_mask_low_bits(frame);
        }
        Self(masked)
    }

    /// Extracts row `index` as one boolean per column, column 0 first.
    pub fn row(self, index: usize) -> (r: [bool; WIDTH])
        requires
            index < HEIGHT,
        ensures
            forall|c: int| 0 <= c < WIDTH ==> r@[c] == self.dot(index as int, c),
    {
        let shift: u16 = ((HEIGHT - 1 - index) * WIDTH) as u16;
        let shifted = self.0 >> shift;
        let mut row = [false; WIDTH];
        let mut c: usize = 0;
        while c < WIDTH
            invariant
                index < HEIGHT,
                c <= WIDTH,
                shift == ((HEIGHT - 1 - index) * WIDTH) as u16,
                shifted == self.bits() >> shift,
                forall|j: int| 0 <= j < c ==> row@[j] == self.dot(index as int, j),
            decreases WIDTH - c,
        {
            let col_shift: u16 = ((WIDTH - 1 - c) as u16);
            row[c] = (shifted >> col_shift) & 1 == 1;
            proof {
                lemma_shift_twice(self.bits(), shift, col_shift);
                assert(dot_shift(index as int, c as int) == shift + col_shift);
            }
            c += 1;
        }
        row
    }
}

impl Default for Frame {
    /// The all-dark frame.
    fn default() -> (r: Self)
        ensures
            r.wf(),
            r.bits() == 0u16,
    {
        proof {
            assert(forall|i: u16| (0u16 >> i) & 1u16 == 0u16) by (bit_vector);
        }
        Self(0)
    }
}

/// Round trip through the packing: a frame whose packed word holds exactly
/// the bit for dot position `k` (row-major: row `k / WIDTH`, column
/// `k % WIDTH`) shows that dot lit and every other dot unlit.
pub proof fn lemma_single_dot(f: Frame, k: int)
    requires
        0 <= k < DOTS,
        f.bits() == 1u16 << ((DOTS - 1 - k) as u16),
    ensures
        forall|r: int, c: int|
            0 <= r < HEIGHT && 0 <= c < WIDTH ==> (f.dot(r, c) <==> (r == k / (WIDTH as int) && c
                == k % (WIDTH as int))),
{
    let m = (14 - k) as u16;
    assert(forall|j: u16| j < 15 ==> (bit_set(1u16 << m, j) <==> j == m)) by (bit_vector)
        requires
            m < 15,
    ;
    assert(k == 5 * (k / 5) + (k % 5)) by (nonlinear_arith)
        requires
            0 <= k,
    ;
    assert forall|r: int, c: int|
        0 <= r < HEIGHT && 0 <= c < WIDTH implies (f.dot(r, c) <==> (r == k / (WIDTH as int) && c
        == k % (WIDTH as int))) by {
        let s = dot_shift(r, c);
        assert(0 <= s < 15);
        let j = s as u16;
        assert(f.bits() == 1u16 << m);
        assert(bit_set(1u16 << m, j) <==> j == m);
        assert(f.dot(r, c) <==> s == 14 - k);
        if 5 * r + c == k {
            assert(r == k / 5 && c == k % 5) by (nonlinear_arith)
                requires
                    5 * r + c == k,
                    0 <= r,
                    0 <= c < 5,
            ;
        }
    }
}

/// Masking with the complement of `0xffff << 15` keeps bits 0..15 and clears
/// bit 15 and above.
proof fn lemma_mask_low_bits(b: u16)
    by (bit_vector)
    ensures
        forall|i: u16| i < 15 ==> ((b & !(0xffffu16 << 15u16)) >> i) & 1u16 == (b >> i) & 1u16,
        forall|i: u16| 15 <= i ==> ((b & !(0xffffu16 << 15u16)) >> i) & 1u16 != 1u16,
{
}

/// Shifting right twice reads the bit at the summed shift.
proof fn lemma_shift_twice(b: u16, i: u16, j: u16)
    by (bit_vector)
    requires
        i + j < 16,
    ensures
        ((b >> i) >> j) & 1u16 == (b >> ((i + j) as u16)) & 1u16,
{
}

} // verus!
