use vstd::prelude::*;

use crate::rng::random_bool;
use crate::screen::HEIGHT;
use crate::screen::WIDTH;

verus! {

/// A coordinate reduced onto a cyclic board axis of length `m`.
pub open spec fn wrap(v: int, m: int) -> int {
    v % m
}

/// Whether the cell at `(x, y)` is alive, with wraparound at the board
/// edges. State 1 is alive; 0 is dead; larger values age a decaying trail.
pub open spec fn alive_at(cells: Seq<Seq<u8>>, x: int, y: int) -> bool {
    cells[wrap(y, HEIGHT as int)][wrap(x, WIDTH as int)] == 1
}

/// 1 when the condition holds, 0 otherwise.
pub open spec fn ind(b: bool) -> int {
    if b {
        1
    } else {
        0
    }
}

/// Number of live cells among the eight neighbors of `(x, y)`.
pub open spec fn neighbor_count(cells: Seq<Seq<u8>>, x: int, y: int) -> int {
    ind(alive_at(cells, x - 1, y - 1)) + ind(alive_at(cells, x, y - 1)) + ind(
        alive_at(cells, x + 1, y - 1),
    ) + ind(alive_at(cells, x - 1, y)) + ind(alive_at(cells, x + 1, y)) + ind(
        alive_at(cells, x - 1, y + 1),
    ) + ind(alive_at(cells, x, y + 1)) + ind(alive_at(cells, x + 1, y + 1))
}

/// The life rule: a live cell survives with two or three live neighbors; a
/// dead cell is born with exactly three.
pub open spec fn transition_spec(current: bool, neighbors: int) -> bool {
    if current {
        neighbors == 2 || neighbors == 3
    } else {
        neighbors == 3
    }
}

/// The next state of the cell at `(x, y)`: newly alive cells get state 1;
/// cells that stay dead keep 0; a dead cell with a trail ages by one,
/// wrapping within the byte.
pub open spec fn next_cell(cells: Seq<Seq<u8>>, x: int, y: int) -> u8 {
    if transition_spec(alive_at(cells, x, y), neighbor_count(cells, x, y)) {
        1
    } else {
        let old = cells[y][x];
        if old == 0 {
            0
        } else {
            ((old + 1) % 256) as u8
        }
    }
}

/// The life rule, executably.
pub fn transition(current: bool, count: usize) -> (r: bool)
    ensures
        r == transition_spec(current, count as int),
{
    if current {
        count == 2 || count == 3
    } else {
        count == 3
    }
}

/// The row sequence seen through the grid view is the row vector's view.
proof fn lemma_grid_rows(l: Life)
    ensures
        l.cells@.len() == l.grid().len(),
        forall|y: int| 0 <= y < l.grid().len() ==> #[trigger] l.grid()[y] == l.cells@[y]@,
{
}

/// The cellular-automaton toy's board: one state byte per panel pixel,
/// with wraparound edges.
pub struct Life {
    cells: Vec<Vec<u8>>,
}

impl Life {
    /// The cell states, row by row.
    pub closed spec fn grid(self) -> Seq<Seq<u8>> {
        self.cells@.map_values(|row: Vec<u8>| row@)
    }

    /// One state byte per panel pixel.
    pub open spec fn wf(self) -> bool {
        self.grid().len() == HEIGHT && forall|y: int|
            0 <= y < HEIGHT ==> (#[trigger] self.grid()[y]).len() == WIDTH
    }

    /// A board with every cell dead.
    pub fn new() -> (r: Life)
        ensures
            r.wf(),
            forall|x: int, y: int|
                0 <= x < WIDTH && 0 <= y < HEIGHT ==> #[trigger] r.grid()[y][x] == 0,
    {
        let mut cells: Vec<Vec<u8>> = Vec::new();
        let mut y: usize = 0;
        while y < HEIGHT
            invariant
                y <= HEIGHT,
                cells@.len() == y,
                forall|yy: int|
                    0 <= yy < y ==> (#[trigger] cells@[yy])@.len() == WIDTH && forall|x: int|
                        0 <= x < WIDTH ==> cells@[yy]@[x] == 0,
            decreases HEIGHT - y,
        {
            let mut row: Vec<u8> = Vec::new();
            let mut x: usize = 0;
            while x < WIDTH
                invariant
                    x <= WIDTH,
                    row@.len() == x,
                    forall|xx: int| 0 <= xx < x ==> #[trigger] row@[xx] == 0,
                decreases WIDTH - x,
            {
                row.push(0);
                x = x + 1;
            }
            cells.push(row);
            y = y + 1;
        }
        Life { cells }
    }

    /// State of the cell at `(x, y)`.
    pub fn state(&self, x: usize, y: usize) -> (r: u8)
        requires
            self.wf(),
            x < WIDTH,
            y < HEIGHT,
        ensures
            r == self.grid()[y as int][x as int],
    {
        proof {
            lemma_grid_rows(*self);
            assert(self.grid()[y as int] == self.cells@[y as int]@);
            assert(self.grid()[y as int].len() == WIDTH);
        }
        self.cells[y][x]
    }

    /// Overwrites the cell at `(x, y)`.
    pub fn set_state(&mut self, x: usize, y: usize, state: u8)
        requires
            old(self).wf(),
            x < WIDTH,
            y < HEIGHT,
        ensures
            final(self).wf(),
            final(self).grid()[y as int][x as int] == state,
            forall|xx: int, yy: int|
                0 <= xx < WIDTH && 0 <= yy < HEIGHT && (xx, yy) != (x as int, y as int)
                    ==> #[trigger] final(self).grid()[yy][xx] == old(self).grid()[yy][xx],
    {
        proof {
            lemma_grid_rows(*self);
            assert(self.grid()[y as int] == self.cells@[y as int]@);
            assert(self.grid()[y as int].len() == WIDTH);
        }
        let mut row = self.cells.remove(y);
        row.set(x, state);
        self.cells.insert(y, row);
        proof {
            lemma_grid_rows(*self);
            assert(self.cells@ =~= old(self).cells@.update(y as int, self.cells@[y as int]));
            assert(self.grid()[y as int] == self.cells@[y as int]@);
            assert(self.grid()[y as int][x as int] == state);
            assert forall|xx: int, yy: int|
                0 <= xx < WIDTH && 0 <= yy < HEIGHT && (xx, yy) != (x as int, y as int)
                    implies #[trigger] self.grid()[yy][xx] == old(self).grid()[yy][xx] by {
                lemma_grid_rows(*old(self));
                assert(self.grid()[yy] == self.cells@[yy]@);
                assert(old(self).grid()[yy] == old(self).cells@[yy]@);
            }
            assert forall|yy: int| 0 <= yy < HEIGHT implies (#[trigger] self.grid()[yy]).len()
                == WIDTH by {
                lemma_grid_rows(*old(self));
                assert(old(self).grid()[yy] == old(self).cells@[yy]@);
                assert(old(self).grid()[yy].len() == WIDTH);
            }
        }
    }

    /// Whether the cell at `(x, y)` is alive, wrapping coordinates around
    /// the board edges.
    pub fn cell(&self, x: i8, y: i8) -> (r: bool)
        requires
            self.wf(),
            x >= -(WIDTH as i8),
            y >= -(HEIGHT as i8),
        ensures
            r == alive_at(self.grid(), x as int, y as int),
    {
        let xi = ((x as i16 + WIDTH as i16) % WIDTH as i16) as usize;
        let yi = ((y as i16 + HEIGHT as i16) % HEIGHT as i16) as usize;
        proof {
            lemma_grid_rows(*self);
            assert((x as int + WIDTH) % (WIDTH as int) == wrap(x as int, WIDTH as int));
            assert((y as int + HEIGHT) % (HEIGHT as int) == wrap(y as int, HEIGHT as int));
            assert(self.grid()[yi as int] == self.cells@[yi as int]@);
            assert(self.grid()[yi as int].len() == WIDTH);
        }
        self.cells[yi][xi] == 1
    }

    /// Seeds every cell at random: alive or dead with equal probability.
    pub fn reset_random(&mut self, rng: &mut rand::rngs::SmallRng)
        requires
            old(self).wf(),
        ensures
            final(self).wf(),
            forall|x: int, y: int|
                0 <= x < WIDTH && 0 <= y < HEIGHT ==> #[trigger] final(self).grid()[y][x] == 0
                    || final(self).grid()[y][x] == 1,
    {
        let mut y: usize = 0;
        while y < HEIGHT
            invariant
                self.wf(),
                y <= HEIGHT,
                forall|xx: int, yy: int|
                    0 <= xx < WIDTH && 0 <= yy < y ==> #[trigger] self.grid()[yy][xx] == 0
                        || self.grid()[yy][xx] == 1,
            decreases HEIGHT - y,
        {
            let mut x: usize = 0;
            while x < WIDTH
                invariant
                    self.wf(),
                    y < HEIGHT,
                    x <= WIDTH,
                    forall|xx: int, yy: int|
                        0 <= xx < WIDTH && 0 <= yy < y ==> #[trigger] self.grid()[yy][xx] == 0
                            || self.grid()[yy][xx] == 1,
                    forall|xx: int|
                        0 <= xx < x ==> #[trigger] self.grid()[y as int][xx] == 0
                            || self.grid()[y as int][xx] == 1,
                decreases WIDTH - x,
            {
                let alive = random_bool(rng);
                self.set_state(x, y, if alive { 1 } else { 0 });
                x = x + 1;
            }
            y = y + 1;
        }
    }

    /// Advances the automaton by one generation over the whole board.
    pub fn step_cells(&mut self)
        requires
            old(self).wf(),
        ensures
            final(self).wf(),
            forall|x: int, y: int|
                0 <= x < WIDTH && 0 <= y < HEIGHT ==> #[trigger] final(self).grid()[y][x]
                    == next_cell(old(self).grid(), x, y),
    {
        let mut new_cells: Vec<Vec<u8>> = Vec::new();
        let mut y: usize = 0;
        while y < HEIGHT
            invariant
                self.wf(),
                *self == *old(self),
                y <= HEIGHT,
                new_cells@.len() == y,
                forall|yy: int|
                    0 <= yy < y ==> (#[trigger] new_cells@[yy])@.len() == WIDTH && forall|x: int|
                        0 <= x < WIDTH ==> new_cells@[yy]@[x] == next_cell(self.grid(), x, yy),
            decreases HEIGHT - y,
        {
            let mut row: Vec<u8> = Vec::new();
            let mut x: usize = 0;
            while x < WIDTH
                invariant
                    self.wf(),
                    *self == *old(self),
                    y < HEIGHT,
                    x <= WIDTH,
                    row@.len() == x,
                    forall|xx: int|
                        0 <= xx < x ==> #[trigger] row@[xx] == next_cell(
                            self.grid(),
                            xx,
                            y as int,
                        ),
                decreases WIDTH - x,
            {
                let xi = x as i8;
                let yi = y as i8;
                let count = (if self.cell(xi - 1, yi - 1) {
                    1usize
                } else {
                    0
                }) + (if self.cell(xi, yi - 1) {
                    1
                } else {
                    0
                }) + (if self.cell(xi + 1, yi - 1) {
                    1
                } else {
                    0
                }) + (if self.cell(xi - 1, yi) {
                    1
                } else {
                    0
                }) + (if self.cell(xi + 1, yi) {
                    1
                } else {
                    0
                }) + (if self.cell(xi - 1, yi + 1) {
                    1
                } else {
                    0
                }) + (if self.cell(xi, yi + 1) {
                    1
                } else {
                    0
                }) + (if self.cell(xi + 1, yi + 1) {
                    1
                } else {
                    0
                });
                let center = self.cell(xi, yi);
                proof {
                    lemma_grid_rows(*self);
                    assert(self.grid()[y as int] == self.cells@[y as int]@);
                    assert(self.grid()[y as int].len() == WIDTH);
                }
                let state = if transition(center, count) {
                    1
                } else {
                    let old_state = self.cells[y][x];
                    if old_state == 0 {
                        0
                    } else {
                        old_state.wrapping_add(1)
                    }
                };
                proof {
                    lemma_grid_rows(*self);
                    assert(count as int == neighbor_count(self.grid(), x as int, y as int));
                    assert(alive_at(self.grid(), x as int, y as int) == center);
                }
                row.push(state);
                x = x + 1;
            }
            new_cells.push(row);
            y = y + 1;
        }
        self.cells = new_cells;
    }
}

impl Default for Life {
    fn default() -> (r: Life)
        ensures
            r.wf(),
            forall|x: int, y: int|
                0 <= x < WIDTH && 0 <= y < HEIGHT ==> #[trigger] r.grid()[y][x] == 0,
    {
        Life::new()
    }
}

} // verus!
