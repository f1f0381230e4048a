use vstd::prelude::*;

use crate::error::Blocked;
use crate::piece::Tetromino;
use crate::pos::Pos;
use crate::rotation::Rot;

verus! {

/// Grid in which tetrominoes fall. Cells hold either nothing or the kind of
/// the piece that was locked there. Row 0 is the bottom row.
pub struct Playfield {
    width: u8,
    height: u8,
    blocks: Vec<Option<Tetromino>>,
}

/// Multiplying a row index by the row width keeps grid indices of distinct
/// cells distinct and in range.
proof fn lemma_grid_index(w: int, x: int, y: int, x2: int, y2: int)
    requires
        w > 0,
        0 <= x < w,
        0 <= x2 < w,
    ensures
        y < y2 ==> y * w + x < y2 * w + x2,
        y * w + x == y2 * w + x2 ==> x == x2 && y == y2,
{
    assert(y < y2 ==> y * w + x < y2 * w + x2) by (nonlinear_arith)
        requires
            w > 0,
            0 <= x < w,
            0 <= x2 < w,
    ;
    assert(y * w + x == y2 * w + x2 ==> x == x2 && y == y2) by (nonlinear_arith)
        requires
            w > 0,
            0 <= x < w,
            0 <= x2 < w,
    ;
}

/// A grid index computed from in-range coordinates stays within the cell
/// store of a grid whose sides fit in the signed 8-bit range.
proof fn lemma_grid_bounds(w: int, h: int, x: int, y: int)
    requires
        0 < w <= 127,
        0 < h <= 127,
        0 <= x < w,
        0 <= y < h,
    ensures
        0 <= y * w + x < w * h,
        w * h <= 16129,
{
    assert(0 <= y * w + x < w * h && w * h <= 16129) by (nonlinear_arith)
        requires
            0 < w <= 127,
            0 < h <= 127,
            0 <= x < w,
            0 <= y < h,
    ;
}

impl Playfield {
    /// Width of the grid.
    pub closed spec fn width_spec(self) -> int {
        self.width as int
    }

    /// Height of the grid, buffer rows included.
    pub closed spec fn height_spec(self) -> int {
        self.height as int
    }

    /// The dimensions fit in the signed 8-bit range and the cell store
    /// matches them.
    pub closed spec fn wf(self) -> bool {
        &&& self.width <= 127
        &&& self.height <= 127
        &&& self.blocks@.len() == self.width_spec() * self.height_spec()
    }

    /// Whether `(x, y)` lies inside the grid.
    pub open spec fn in_bounds(self, x: int, y: int) -> bool {
        0 <= x < self.width_spec() && 0 <= y < self.height_spec()
    }

    /// Contents of the cell at `(x, y)`.
    pub closed spec fn cell(self, x: int, y: int) -> Option<Tetromino>
        recommends
            self.in_bounds(x, y),
    {
        self.blocks@[y * self.width_spec() + x]
    }

    /// Whether block `i` of a piece anchored at `(px, py)` lies on an empty
    /// in-bounds cell.
    pub open spec fn block_ok(self, piece: Tetromino, rot: Rot, px: int, py: int, i: int) -> bool {
        let b = piece.block_at(rot, px, py, i);
        self.in_bounds(b.0, b.1) && self.cell(b.0, b.1) is None
    }

    /// Whether a piece can be placed: all four blocks in bounds and empty.
    pub open spec fn can_place_spec(self, piece: Tetromino, rot: Rot, px: int, py: int) -> bool {
        forall|i: int| 0 <= i < 4 ==> #[trigger] self.block_ok(piece, rot, px, py, i)
    }

    /// Whether `(x, y)` is covered by some block of a piece anchored at
    /// `(px, py)`.
    pub open spec fn covers(piece: Tetromino, rot: Rot, px: int, py: int, x: int, y: int) -> bool {
        exists|i: int| 0 <= i < 4 && #[trigger] piece.block_at(rot, px, py, i) == (x, y)
    }

    /// Whether every cell of row `y` is occupied.
    pub open spec fn row_full(self, y: int) -> bool {
        forall|x: int| 0 <= x < self.width_spec() ==> #[trigger] self.cell(x, y) is Some
    }

    pub fn new(width: u8, height: u8) -> (r: Playfield)
        requires
            width <= 127,
            height <= 127,
        ensures
            r.wf(),
            r.width_spec() == width,
            r.height_spec() == height,
            forall|x: int, y: int| r.in_bounds(x, y) ==> #[trigger] r.cell(x, y) is None,
    {
        proof {
            assert(width as int * height as int <= 16129) by (nonlinear_arith)
                requires
                    width <= 127,
                    height <= 127,
            ;
        }
        let n = width as usize * height as usize;
        let mut blocks: Vec<Option<Tetromino>> = Vec::new();
        let mut i: usize = 0;
        while i < n
            invariant
                i <= n,
                blocks@.len() == i,
                forall|k: int| 0 <= k < i ==> #[trigger] blocks@[k] is None,
            decreases n - i,
        {
            blocks.push(None);
            i = i + 1;
        }
        let r = Playfield { width, height, blocks };
        proof {
            assert forall|x: int, y: int| r.in_bounds(x, y) implies #[trigger] r.cell(x, y)
                is None by {
                lemma_grid_bounds(width as int, height as int, x, y);
            }
        }
        r
    }

    pub fn width(&self) -> (r: u8)
        ensures
            r == self.width_spec(),
    {
        self.width
    }

    pub fn height(&self) -> (r: u8)
        ensures
            r == self.height_spec(),
    {
        self.height
    }

    /// Contents of the cell at `pos`, or `None` if `pos` lies outside the
    /// grid.
    pub fn get(&self, pos: Pos) -> (r: Option<Option<Tetromino>>)
        requires
            self.wf(),
        ensures
            r is Some <==> self.in_bounds(pos.x as int, pos.y as int),
            r matches Some(c) ==> c == self.cell(pos.x as int, pos.y as int),
    {
        if 0 <= pos.x && (pos.x as u8) < self.width && 0 <= pos.y && (pos.y as u8) < self.height {
            proof {
                lemma_grid_bounds(
                    self.width as int,
                    self.height as int,
                    pos.x as int,
                    pos.y as int,
                );
            }
            let idx = pos.y as usize * self.width as usize + pos.x as usize;
            Some(self.blocks[idx])
        } else {
            None
        }
    }

    /// Overwrites the cell at `pos`.
    pub fn set(&mut self, pos: Pos, block: Option<Tetromino>)
        requires
            old(self).wf(),
            old(self).in_bounds(pos.x as int, pos.y as int),
        ensures
            final(self).wf(),
            final(self).width_spec() == old(self).width_spec(),
            final(self).height_spec() == old(self).height_spec(),
            final(self).cell(pos.x as int, pos.y as int) == block,
            forall|x: int, y: int|
                old(self).in_bounds(x, y) && (x, y) != (pos.x as int, pos.y as int)
                    ==> #[trigger] final(self).cell(x, y) == old(self).cell(x, y),
    {
        proof {
            lemma_grid_bounds(self.width as int, self.height as int, pos.x as int, pos.y as int);
        }
        let idx = pos.y as usize * self.width as usize + pos.x as usize;
        self.blocks.set(idx, block);
        proof {
            assert forall|x: int, y: int|
                old(self).in_bounds(x, y) && (x, y) != (pos.x as int, pos.y as int)
                    implies #[trigger] self.cell(x, y) == old(self).cell(x, y) by {
                lemma_grid_index(self.width as int, x, y, pos.x as int, pos.y as int);
                lemma_grid_index(self.width as int, pos.x as int, pos.y as int, x, y);
                lemma_grid_bounds(self.width as int, self.height as int, x, y);
            }
        }
    }

    /// Whether block `i` of the piece would land on an empty in-bounds cell.
    fn block_free(&self, piece: Tetromino, rot: Rot, pos: Pos, i: usize) -> (r: bool)
        requires
            self.wf(),
            i < 4,
        ensures
            r == self.block_ok(piece, rot, pos.x as int, pos.y as int, i as int),
    {
        let c = piece.coordinates();
        let a = rot.apply(c[i]);
        let bx = pos.x as i16 + a.dx as i16;
        let by = pos.y as i16 + a.dy as i16;
        if 0 <= bx && bx < self.width as i16 && 0 <= by && by < self.height as i16 {
            proof {
                lemma_grid_bounds(self.width as int, self.height as int, bx as int, by as int);
            }
            let idx = by as usize * self.width as usize + bx as usize;
            self.blocks[idx].is_none()
        } else {
            false
        }
    }

    /// True iff all 4 absolute block coordinates derived from
    /// `piece`+`rot`+`pos` lie in bounds and are empty.
    pub fn can_place_piece(&self, piece: Tetromino, rot: Rot, pos: Pos) -> (r: bool)
        requires
            self.wf(),
        ensures
            r == self.can_place_spec(piece, rot, pos.x as int, pos.y as int),
    {
        let r = self.block_free(piece, rot, pos, 0) && self.block_free(piece, rot, pos, 1)
            && self.block_free(piece, rot, pos, 2) && self.block_free(piece, rot, pos, 3);
        proof {
            if r {
                assert forall|i: int|
                    0 <= i < 4 implies #[trigger] self.block_ok(
                    piece,
                    rot,
                    pos.x as int,
                    pos.y as int,
                    i,
                ) by {
                    assert(i == 0 || i == 1 || i == 2 || i == 3);
                }
            }
        }
        r
    }

    /// Writes the piece into the grid, or fails with `Blocked` when it does
    /// not fit; on failure the grid is unchanged.
    pub fn place_piece(&mut self, piece: Tetromino, rot: Rot, pos: Pos) -> (r: Result<(), Blocked>)
        requires
            old(self).wf(),
        ensures
            final(self).wf(),
            final(self).width_spec() == old(self).width_spec(),
            final(self).height_spec() == old(self).height_spec(),
            r is Ok <==> old(self).can_place_spec(piece, rot, pos.x as int, pos.y as int),
            r is Err ==> *final(self) == *old(self),
            r is Ok ==> forall|x: int, y: int|
                old(self).in_bounds(x, y) ==> #[trigger] final(self).cell(x, y) == (
                if Self::covers(piece, rot, pos.x as int, pos.y as int, x, y) {
                    Some(piece)
                } else {
                    old(self).cell(x, y)
                }),
    {
        if !self.can_place_piece(piece, rot, pos) {
            return Err(Blocked);
        }
        let c = piece.coordinates();
        let mut i: usize = 0;
        while i < 4
            invariant
                i <= 4,
                self.wf(),
                self.width_spec() == old(self).width_spec(),
                self.height_spec() == old(self).height_spec(),
                old(self).can_place_spec(piece, rot, pos.x as int, pos.y as int),
                forall|k: int|
                    0 <= k < 4 ==> (#[trigger] c[k]).dx == piece.shape()[k].0 && c[k].dy
                        == piece.shape()[k].1,
                forall|x: int, y: int|
                    old(self).in_bounds(x, y) ==> #[trigger] self.cell(x, y) == (
                    if exists|j: int|
                        0 <= j < i && #[trigger] piece.block_at(rot, pos.x as int, pos.y as int, j)
                            == (x, y) {
                        Some(piece)
                    } else {
                        old(self).cell(x, y)
                    }),
            decreases 4 - i,
        {
            assert(old(self).block_ok(piece, rot, pos.x as int, pos.y as int, i as int));
            let a = rot.apply(c[i]);
            let bp = pos.add_offset(a);
            self.set(bp, Some(piece));
            i = i + 1;
        }
        Ok(())
    }

    /// Every row index whose cells are all occupied, in ascending order.
    pub fn full_rows(&self) -> (r: Vec<i8>)
        requires
            self.wf(),
        ensures
            forall|i: int|
                0 <= i < r@.len() ==> 0 <= #[trigger] r@[i] < self.height_spec() && self.row_full(
                    r@[i] as int,
                ),
            forall|y: int| 0 <= y < self.height_spec() && self.row_full(y) ==> r@.contains(y as i8),
            forall|i: int, j: int| 0 <= i < j < r@.len() ==> r@[i] < r@[j],
    {
        let mut r: Vec<i8> = Vec::new();
        let mut y: u8 = 0;
        while y < self.height
            invariant
                self.wf(),
                y <= self.height,
                forall|i: int|
                    0 <= i < r@.len() ==> 0 <= #[trigger] r@[i] < y && self.row_full(r@[i] as int),
                forall|yy: int| 0 <= yy < y && self.row_full(yy) ==> r@.contains(yy as i8),
                forall|i: int, j: int| 0 <= i < j < r@.len() ==> r@[i] < r@[j],
            decreases self.height - y,
        {
            if self.row_full_exec(y) {
                let ghost old_r = r@;
                r.push(y as i8);
                proof {
                    assert forall|yy: int|
                        0 <= yy < y + 1 && self.row_full(yy) implies r@.contains(yy as i8) by {
                        if yy < y {
                            let i = choose|i: int|
                                0 <= i < old_r.len() && old_r[i] == yy as i8;
                            assert(r@[i] == yy as i8);
                        } else {
                            assert(r@[r@.len() - 1] == yy as i8);
                        }
                    }
                }
            }
            y = y + 1;
        }
        r
    }

    /// Whether every cell of row `y` is occupied.
    fn row_full_exec(&self, y: u8) -> (r: bool)
        requires
            self.wf(),
            y < self.height,
        ensures
            r == self.row_full(y as int),
    {
        let mut x: u8 = 0;
        while x < self.width
            invariant
                self.wf(),
                y < self.height,
                x <= self.width,
                forall|xx: int| 0 <= xx < x ==> #[trigger] self.cell(xx, y as int) is Some,
            decreases self.width - x,
        {
            proof {
                lemma_grid_bounds(self.width as int, self.height as int, x as int, y as int);
            }
            let idx = y as usize * self.width as usize + x as usize;
            if self.blocks[idx].is_none() {
                proof {
                    assert(self.cell(x as int, y as int) is None);
                }
                return false;
            }
            x = x + 1;
        }
        true
    }

    /// Removes row `row` and shifts every row above it down by one; the top
    /// row becomes empty. Rows below `row` are unchanged.
    pub fn delete_row(&mut self, row: i8)
        requires
            old(self).wf(),
            0 <= row < old(self).height_spec(),
        ensures
            final(self).wf(),
            final(self).width_spec() == old(self).width_spec(),
            final(self).height_spec() == old(self).height_spec(),
            forall|x: int, y: int|
                old(self).in_bounds(x, y) && y < row
                    ==> #[trigger] final(self).cell(x, y) == old(self).cell(x, y),
            forall|x: int, y: int|
                old(self).in_bounds(x, y) && row <= y < old(self).height_spec() - 1
                    ==> #[trigger] final(self).cell(x, y) == old(self).cell(x, y + 1),
            forall|x: int, y: int|
                old(self).in_bounds(x, y) && y == old(self).height_spec() - 1
                    ==> #[trigger] final(self).cell(x, y) is None,
    {
        let mut y: u8 = row as u8;
        while y + 1 < self.height
            invariant
                self.wf(),
                self.width_spec() == old(self).width_spec(),
                self.height_spec() == old(self).height_spec(),
                row <= y < self.height,
                forall|x: int, yy: int|
                    old(self).in_bounds(x, yy) && yy < row ==> #[trigger] self.cell(x, yy) == old(self).cell(x, yy),
                forall|x: int, yy: int|
                    old(self).in_bounds(x, yy) && row <= yy < y ==> #[trigger] self.cell(x, yy)
                        == old(self).cell(x, yy + 1),
                forall|x: int, yy: int|
                    old(self).in_bounds(x, yy) && y <= yy ==> #[trigger] self.cell(x, yy) == old(self).cell(x, yy),
            decreases self.height - y,
        {
            self.copy_row_down(y);
            y = y + 1;
        }
        self.clear_row(y);
    }

    /// Copies row `y + 1` onto row `y`, leaving every other row unchanged.
    fn copy_row_down(&mut self, y: u8)
        requires
            old(self).wf(),
            (y as int) + 1 < old(self).height_spec(),
        ensures
            final(self).wf(),
            final(self).width_spec() == old(self).width_spec(),
            final(self).height_spec() == old(self).height_spec(),
            forall|x: int|
                0 <= x < old(self).width_spec() ==> #[trigger] final(self).cell(x, y as int) == old(self).cell(x, y as int + 1),
            forall|x: int, yy: int|
                old(self).in_bounds(x, yy) && yy != y ==> #[trigger] final(self).cell(x, yy) == old(self).cell(x, yy),
    {
        let mut x: u8 = 0;
        while x < self.width
            invariant
                self.wf(),
                self.width_spec() == old(self).width_spec(),
                self.height_spec() == old(self).height_spec(),
                (y as int) + 1 < self.height_spec(),
                x <= self.width,
                forall|xx: int|
                    0 <= xx < x ==> #[trigger] self.cell(xx, y as int) == old(self).cell(
                        xx,
                        y as int + 1,
                    ),
                forall|xx: int, yy: int|
                    old(self).in_bounds(xx, yy) && (yy != y || x <= xx) ==> #[trigger] self.cell(
                        xx,
                        yy,
                    ) == old(self).cell(xx, yy),
            decreases self.width - x,
        {
            proof {
                lemma_grid_bounds(
                    self.width as int,
                    self.height as int,
                    x as int,
                    y as int + 1,
                );
            }
            let src = (y as usize + 1) * self.width as usize + x as usize;
            let v = self.blocks[src];
            proof {
                assert(self.cell(x as int, y as int + 1) == old(self).cell(x as int, y as int + 1));
                assert(v == self.cell(x as int, y as int + 1));
            }
            self.set(Pos { x: x as i8, y: y as i8 }, v);
            x = x + 1;
        }
    }

    /// Empties every cell of row `y`, leaving every other row unchanged.
    fn clear_row(&mut self, y: u8)
        requires
            old(self).wf(),
            (y as int) < old(self).height_spec(),
        ensures
            final(self).wf(),
            final(self).width_spec() == old(self).width_spec(),
            final(self).height_spec() == old(self).height_spec(),
            forall|x: int|
                0 <= x < old(self).width_spec() ==> #[trigger] final(self).cell(x, y as int)
                    is None,
            forall|x: int, yy: int|
                old(self).in_bounds(x, yy) && yy != y ==> #[trigger] final(self).cell(x, yy) == old(self).cell(x, yy),
    {
        let mut x: u8 = 0;
        while x < self.width
            invariant
                self.wf(),
                self.width_spec() == old(self).width_spec(),
                self.height_spec() == old(self).height_spec(),
                (y as int) < self.height_spec(),
                x <= self.width,
                forall|xx: int| 0 <= xx < x ==> #[trigger] self.cell(xx, y as int) is None,
                forall|xx: int, yy: int|
                    old(self).in_bounds(xx, yy) && (yy != y || x <= xx) ==> #[trigger] self.cell(
                        xx,
                        yy,
                    ) == old(self).cell(xx, yy),
            decreases self.width - x,
        {
            self.set(Pos { x: x as i8, y: y as i8 }, None);
            x = x + 1;
        }
    }
}

} // verus!
