//! Row-multiplexed scanning driver.
//!
//! The display has `WIDTH` column lines and `HEIGHT` row-enable lines, all
//! active-low: a dot lights only while its row line and its column line are
//! both driven to the active level. One refresh step first returns every
//! line to the inactive baseline (so no stale level bleeds across the row
//! switch), then enables exactly the row under the cursor, drives the
//! columns of that row's lit dots, and advances the cursor by one, modulo
//! `HEIGHT`. Run often enough, the rows appear lit simultaneously.
//!
//! The struct models the level of each output line as a boolean (`true` =
//! driven to its active level); the board glue copies the levels to the
//! pins after each step.

use vstd::prelude::*;

use crate::frame::Frame;
use crate::{HEIGHT, WIDTH};

verus! {

/// Scanning state: the selected frame, the row cursor, and the modeled
/// level of each output line.
pub struct Display {
    columns: [bool; WIDTH],
    rows: [bool; HEIGHT],
    frame: Frame,
    row: usize,
}

/// One refresh step, relating the state before to the state after: the
/// frame is kept, exactly the row under the old cursor is enabled, the
/// columns carry that row's dots, and the cursor advances by one, modulo
/// `HEIGHT`.
pub open spec fn scan_step(pre: Display, post: Display) -> bool {
    &&& post.frame() == pre.frame()
    &&& post.cursor() == (pre.cursor() + 1) % (HEIGHT as int)
    &&& forall|i: int| 0 <= i < HEIGHT ==> (post.row_active(i) <==> i == pre.cursor())
    &&& forall|c: int| 0 <= c < WIDTH ==> post.col_active(c) == pre.frame().dot(pre.cursor(), c)
}

/// The step, counted from 0, at which a full scan that starts with its
/// cursor on row `c0` enables row `i`.
pub open spec fn step_of_row(c0: int, i: int) -> int {
    (i - c0 + HEIGHT) % (HEIGHT as int)
}

/// Over `HEIGHT` consecutive refresh steps the display performs a full
/// scan: the frame is held; after step `j` (states are numbered so that
/// step `j` leads to state `j`) the one enabled row is
/// `(starting cursor + j - 1) % HEIGHT`, so the rows come in increasing
/// cyclic order; no row is enabled at two different steps; every row is
/// enabled at one step; and while a row is enabled the active columns are
/// exactly that row of the frame.
pub proof fn lemma_full_scan(ds: Seq<Display>)
    requires
        ds.len() == HEIGHT + 1,
        ds[0].wf(),
        forall|k: int| 0 <= k < HEIGHT ==> scan_step(#[trigger] ds[k], ds[k + 1]),
    ensures
        forall|j: int| 1 <= j <= HEIGHT ==> (#[trigger] ds[j]).frame() == ds[0].frame(),
        forall|j: int, i: int|
            1 <= j <= HEIGHT && 0 <= i < HEIGHT ==> (#[trigger] ds[j].row_active(i) <==> i == (
            ds[0].cursor() + j - 1) % (HEIGHT as int)),
        forall|j1: int, j2: int, i: int|
            1 <= j1 <= HEIGHT && 1 <= j2 <= HEIGHT && 0 <= i < HEIGHT
                && #[trigger] ds[j1].row_active(i) && #[trigger] ds[j2].row_active(i) ==> j1 == j2,
        forall|i: int|
            0 <= i < HEIGHT ==> 0 <= #[trigger] step_of_row(ds[0].cursor(), i) < HEIGHT && ds[
                step_of_row(ds[0].cursor(), i) + 1
            ].row_active(i),
        forall|j: int, c: int|
            1 <= j <= HEIGHT && 0 <= c < WIDTH ==> #[trigger] ds[j].col_active(c)
                == ds[0].frame().dot((ds[0].cursor() + j - 1) % (HEIGHT as int), c),
{
    let c0 = ds[0].cursor();
    assert(scan_step(ds[0], ds[1]));
    assert(scan_step(ds[1], ds[2]));
    assert(scan_step(ds[2], ds[3]));
    assert(ds[1].cursor() == (c0 + 1) % 3);
    assert(ds[2].cursor() == (c0 + 2) % 3);
}

impl Display {
    /// The currently displayed frame.
    pub closed spec fn frame(self) -> Frame {
        self.frame
    }

    /// The row the next refresh step will enable.
    pub closed spec fn cursor(self) -> int {
        self.row as int
    }

    /// Row-enable output `i` is driven to its active level.
    pub closed spec fn row_active(self, i: int) -> bool {
        self.rows@[i]
    }

    /// Column output `c` is driven to its active level.
    pub closed spec fn col_active(self, c: int) -> bool {
        self.columns@[c]
    }

    pub open spec fn wf(self) -> bool {
        &&& 0 <= self.cursor() < HEIGHT
        &&& self.frame().wf()
    }

    /// A fresh driver: cursor at row 0, all-dark frame, every output line
    /// at its inactive level (the board glue configures the pins that way).
    pub fn new() -> (d: Display)
        ensures
            d.wf(),
            d.cursor() == 0,
            d.frame().bits() == 0u16,
            forall|i: int| 0 <= i < HEIGHT ==> !d.row_active(i),
            forall|c: int| 0 <= c < WIDTH ==> !d.col_active(c),
    {
        Display { columns: [false; WIDTH], rows: [false; HEIGHT], frame: Frame::default(), row: 0 }
    }

    /// Replaces the displayed frame; takes effect on the next refresh step.
    pub fn set(&mut self, frame: Frame)
        requires
            old(self).wf(),
            frame.wf(),
        ensures
            final(self).wf(),
            final(self).frame() == frame,
            final(self).cursor() == old(self).cursor(),
            forall|i: int| 0 <= i < HEIGHT ==> final(self).row_active(i) == old(self).row_active(i),
            forall|c: int| 0 <= c < WIDTH ==> final(self).col_active(c) == old(self).col_active(c),
    {
        self.frame = frame;
    }

    /// The scanning step: all lines off, then exactly the cursor's row
    /// enabled with its lit columns driven, then the cursor advanced.
    pub fn update(&mut self)
        requires
            old(self).wf(),
        ensures
            final(self).wf(),
            scan_step(*old(self), *final(self)),
    {
        let mut i: usize = 0;
        while i < HEIGHT
            invariant
                i <= HEIGHT,
                self.frame == old(self).frame,
                self.row == old(self).row,
                self.columns == old(self).columns,
                old(self).wf(),
                forall|j: int| 0 <= j < i ==> !self.rows@[j],
            decreases HEIGHT - i,
        {
            self.rows[i] = false;
            i += 1;
        }
        let mut c: usize = 0;
        while c < WIDTH
            invariant
                c <= WIDTH,
                self.frame == old(self).frame,
                self.row == old(self).row,
                old(self).wf(),
                forall|j: int| 0 <= j < HEIGHT ==> !self.rows@[j],
                forall|j: int| 0 <= j < c ==> !self.columns@[j],
            decreases WIDTH - c,
        {
            self.columns[c] = false;
            c += 1;
        }
        let mut i: usize = 0;
        while i < HEIGHT
            invariant
                i <= HEIGHT,
                self.frame == old(self).frame,
                self.row == old(self).row,
                old(self).wf(),
                forall|j: int| 0 <= j < WIDTH ==> !self.columns@[j],
                forall|j: int| 0 <= j < i ==> (self.rows@[j] <==> j == old(self).cursor()),
            decreases HEIGHT - i,
        {
            if i == self.row {
                self.rows[i] = true;
            } else {
                self.rows[i] = false;
            }
            i += 1;
        }
        let dots = self.frame.row(self.row);
        let mut c: usize = 0;
        while c < WIDTH
            invariant
                c <= WIDTH,
                self.frame == old(self).frame,
                self.row == old(self).row,
                old(self).wf(),
                forall|j: int| 0 <= j < WIDTH ==> dots@[j] == self.frame().dot(old(self).cursor(), j),
                forall|j: int| 0 <= j < HEIGHT ==> (self.rows@[j] <==> j == old(self).cursor()),
                forall|j: int| c <= j < WIDTH ==> !self.columns@[j],
                forall|j: int| 0 <= j < c ==> self.columns@[j] == self.frame().dot(old(self).cursor(), j),
            decreases WIDTH - c,
        {
            if dots[c] {
                self.columns[c] = true;
            }
            c += 1;
        }
        self.row += 1;
        self.row %= HEIGHT;
    }

    /// Level of row-enable output `i` (`true` = driven active).
    pub fn row_output(&self, i: usize) -> (b: bool)
        requires
            i < HEIGHT,
        ensures
            b == self.row_active(i as int),
    {
        self.rows[i]
    }

    /// Level of column output `c` (`true` = driven active).
    pub fn col_output(&self, c: usize) -> (b: bool)
        requires
            c < WIDTH,
        ensures
            b == self.col_active(c as int),
    {
        self.columns[c]
    }

    /// The row the next refresh step will enable.
    pub fn next_row(&self) -> (r: usize)
        ensures
            r as int == self.cursor(),
    {
        self.row
    }
}

} // verus!
