//! The dungeon map handed to the renderer: a row-major grid of cells.
use vstd::prelude::*;

verus! {

/// One square of the dungeon map.
#[derive(Clone, Copy, Debug, PartialEq, Eq, Structural)]
pub enum DungeonCell {
    Empty,
    Wall,
    Floor,
    /// Recognised, but no geometry is drawn for it yet.
    Door,
    /// Recognised, but no geometry is drawn for it yet.
    OpenDoor,
}

impl DungeonCell {
    /// Whether cells of this kind have geometry in the world renderer.
    pub open spec fn is_drawn(self) -> bool {
        self is Wall || self is Floor
    }
}

/// The cells of the current map, stored row by row: cell (x, y) sits at
/// `width * y + x`.
pub struct DungeonFloor {
    pub width: usize,
    pub height: usize,
    pub cells: Vec<DungeonCell>,
}

impl DungeonFloor {
    /// The grid holds exactly one cell per coordinate pair.
    pub open spec fn wf(&self) -> bool {
        self.cells@.len() == self.width * self.height
    }

    pub open spec fn in_bounds(&self, x: int, y: int) -> bool {
        0 <= x < self.width && 0 <= y < self.height
    }

    /// The cell stored at (x, y).
    pub open spec fn cell(&self, x: int, y: int) -> DungeonCell {
        self.cells@[self.width * y + x]
    }

    /// Checks that the cell count matches the dimensions.
    pub fn is_well_formed(&self) -> (r: bool)
        ensures
            r == self.wf(),
    {
        let len = self.cells.len();
        match self.width.checked_mul(self.height) {
            Some(n) => n == len,
            None => false,
        }
    }

    /// Whether (x, y) lies inside the grid. Reading or writing outside it is
    /// a programmer error, which callers rule out with this check.
    pub fn contains(&self, x: usize, y: usize) -> (r: bool)
        ensures
            r == self.in_bounds(x as int, y as int),
    {
        x < self.width && y < self.height
    }

    /// The cell at (x, y).
    pub fn get(&self, x: usize, y: usize) -> (r: &DungeonCell)
        requires
            self.wf(),
            self.in_bounds(x as int, y as int),
        ensures
            *r == self.cell(x as int, y as int),
    {
        let n = self.cells.len();
        proof {
            lemma_row_major_index(self.width as int, self.height as int, x as int, y as int);
        }
        &self.cells[self.width * y + x]
    }

    /// Replaces the cell at (x, y).
    pub fn set(&mut self, x: usize, y: usize, cell: DungeonCell)
        requires
            old(self).wf(),
            old(self).in_bounds(x as int, y as int),
        ensures
            final(self).width == old(self).width,
            final(self).height == old(self).height,
            final(self).cells@ == old(self).cells@.update(old(self).width * y + x, cell),
    {
        let n = self.cells.len();
        proof {
            lemma_row_major_index(self.width as int, self.height as int, x as int, y as int);
        }
        let i = self.width * y + x;
        self.cells.set(i, cell);
    }
}

/// A coordinate pair inside a `w` by `h` grid has a row-major index inside it.
pub proof fn lemma_row_major_index(w: int, h: int, x: int, y: int)
    requires
        0 <= x < w,
        0 <= y < h,
    ensures
        0 <= w * y + x < w * h,
{
    assert(w * y + x < w * h) by (nonlinear_arith)
        requires
            0 <= x < w,
            0 <= y < h,
    ;
    assert(0 <= w * y) by (nonlinear_arith)
        requires
            0 <= w,
            0 <= y,
    ;
}

/// The cells of the test level, row by row.
pub open spec fn experimental_cells() -> Seq<DungeonCell> {
    let e = DungeonCell::Empty;
    let w = DungeonCell::Wall;
    let f = DungeonCell::Floor;
    seq![
        e, e, e, w, w, w, w, e, e, e,
        e, e, e, w, f, f, w, e, e, e,
        w, w, w, w, f, f, w, e, e, e,
        w, f, f, f, f, f, w, w, w, w,
        w, f, f, f, f, f, f, f, f, w,
        w, f, f, w, f, f, f, f, f, w,
        w, f, f, f, f, f, w, w, w, w,
        w, f, f, f, f, f, w, e, e, e,
        w, f, f, f, f, f, w, e, e, e,
        w, w, w, w, w, w, w, e, e, e,
    ]
}

/// The ten-by-ten test level: a walled room with a short corridor.
pub fn experimental_map() -> (r: DungeonFloor)
    ensures
        r.wf(),
        r.width == 10,
        r.height == 10,
        r.cells@ == experimental_cells(),
{
    let e = DungeonCell::Empty;
    let w = DungeonCell::Wall;
    let f = DungeonCell::Floor;
    let cells = vec![
        e, e, e, w, w, w, w, e, e, e,
        e, e, e, w, f, f, w, e, e, e,
        w, w, w, w, f, f, w, e, e, e,
        w, f, f, f, f, f, w, w, w, w,
        w, f, f, f, f, f, f, f, f, w,
        w, f, f, w, f, f, f, f, f, w,
        w, f, f, f, f, f, w, w, w, w,
        w, f, f, f, f, f, w, e, e, e,
        w, f, f, f, f, f, w, e, e, e,
        w, w, w, w, w, w, w, e, e, e,
    ];
    let r = DungeonFloor { width: 10, height: 10, cells };
    assert(r.cells@ =~= experimental_cells());
    assert(r.cells@.len() == 100);
    assert(r.width * r.height == 100) by (nonlinear_arith)
        requires
            r.width == 10,
            r.height == 10,
    ;
    r
}

} // verus!
