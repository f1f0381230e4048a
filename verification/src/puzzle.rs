use vstd::arithmetic::div_mod::lemma_fundamental_div_mod;
use vstd::arithmetic::div_mod::lemma_fundamental_div_mod_converse;
use vstd::prelude::*;

use crate::geom::Axis;
use crate::geom::Pos4;
use crate::geom::Sign;
use crate::rng::random_bool;
use crate::rng::three_distinct_axis_ids;

verus! {

/// One of the eight cells (hyperfaces) of the hypercube, which doubles as
/// a sticker color.
#[derive(Debug, Copy, Clone, PartialEq, Eq, Structural, Hash)]
pub struct Facet {
    pub axis: Axis,
    pub sign: Sign,
}

impl Facet {
    /// Numeric identifier: the axis identifier doubled, plus one for the
    /// negative direction.
    pub open spec fn id_spec(self) -> int {
        self.axis.id_spec() * 2 + self.sign.id_spec()
    }

    /// The facet with identifier `i`, for `0 <= i < 8`.
    pub open spec fn from_id_spec(i: int) -> Facet {
        Facet {
            axis: Axis::from_id_spec(i / 2),
            sign: if i % 2 == 0 {
                Sign::Pos
            } else {
                Sign::Neg
            },
        }
    }

    /// Whether a position lies strictly on this facet's side of its axis.
    pub open spec fn has_pos_spec(self, p: Pos4) -> bool {
        match self.sign {
            Sign::Pos => p.coord(self.axis.id_spec()) > 0,
            Sign::Neg => p.coord(self.axis.id_spec()) < 0,
        }
    }

    pub fn id(self) -> (r: u8)
        ensures
            r == self.id_spec(),
    {
        self.axis.id() * 2 + self.sign.id()
    }

    pub fn from_id(id: u8) -> (r: Facet)
        requires
            id < 8,
        ensures
            r == Facet::from_id_spec(id as int),
    {
        Facet { axis: Axis::from_id(id / 2), sign: Sign::from_id(id % 2) }
    }

    /// The facet in the positive direction of an axis.
    pub fn pos(axis: Axis) -> (r: Facet)
        ensures
            r == (Facet { axis, sign: Sign::Pos }),
    {
        Facet { axis, sign: Sign::Pos }
    }

    /// The facet in the negative direction of an axis.
    pub fn neg(axis: Axis) -> (r: Facet)
        ensures
            r == (Facet { axis, sign: Sign::Neg }),
    {
        Facet { axis, sign: Sign::Neg }
    }

    pub fn has_pos(self, pos: Pos4) -> (r: bool)
        ensures
            r == self.has_pos_spec(pos),
    {
        let c = pos.get(self.axis);
        match self.sign {
            Sign::Pos => c > 0,
            Sign::Neg => c < 0,
        }
    }

    pub fn has_piece(self, piece: Piece) -> (r: bool)
        ensures
            r == self.has_pos_spec(piece.pos_spec()),
    {
        self.has_pos(piece.pos())
    }

    pub fn has_sticker(self, sticker: Sticker) -> (r: bool)
        ensures
            r == self.has_pos_spec(sticker.pos_spec()),
    {
        self.has_pos(sticker.pos())
    }

    /// The 27 stickers of this facet, in the facet-local scanning order.
    pub fn stickers(self) -> (r: Vec<Sticker>)
        ensures
            r@.len() == 27,
            forall|t: int|
                0 <= t < 27 ==> (#[trigger] r@[t]).wf() && r@[t].facet_spec() == self
                    && r@[t].index_spec() == self.id_spec() * 27 + t / 9 + 3 * ((t / 3) % 3) + 9 * (
                t % 3),
    {
        let mut r: Vec<Sticker> = Vec::new();
        let mut t: usize = 0;
        while t < 27
            invariant
                t <= 27,
                r@.len() == t,
                forall|k: int|
                    0 <= k < t ==> (#[trigger] r@[k]).wf() && r@[k].facet_spec() == self
                        && r@[k].index_spec() == self.id_spec() * 27 + k / 9 + 3 * ((k / 3) % 3) + 9
                        * (k % 3),
            decreases 27 - t,
        {
            let q = (t / 9) as i8 - 1;
            let rr = ((t / 3) % 3) as i8 - 1;
            let s = (t % 3) as i8 - 1;
            r.push(make_sticker(self, q, rr, s));
            t = t + 1;
        }
        r
    }

    /// The 27 pieces touching this facet, in the facet-local scanning
    /// order.
    pub fn pieces(self) -> (r: Vec<Piece>)
        ensures
            r@.len() == 27,
            forall|t: int|
                0 <= t < 27 ==> (#[trigger] r@[t]).wf() && self.has_pos_spec(r@[t].pos_spec()),
    {
        let stickers = self.stickers();
        let mut r: Vec<Piece> = Vec::new();
        let mut t: usize = 0;
        while t < 27
            invariant
                t <= 27,
                r@.len() == t,
                stickers@.len() == 27,
                forall|k: int|
                    0 <= k < 27 ==> (#[trigger] stickers@[k]).wf() && stickers@[k].facet_spec()
                        == self,
                forall|k: int|
                    0 <= k < t ==> (#[trigger] r@[k]).wf() && self.has_pos_spec(r@[k].pos_spec()),
            decreases 27 - t,
        {
            let st = stickers[t];
            let p = st.piece();
            proof {
                lemma_sticker_piece_on_facet(st);
            }
            r.push(p);
            t = t + 1;
        }
        r
    }

    /// The piece at the center of this facet.
    pub fn center_piece(self) -> (r: Piece)
        ensures
            r.wf(),
            forall|i: int|
                0 <= i < 4 ==> #[trigger] r.coord(i) == if i == self.axis.id_spec() {
                    self.sign.to_int()
                } else {
                    0
                },
    {
        self.center_sticker().piece()
    }

    /// The sticker at the center of this facet.
    pub fn center_sticker(self) -> (r: Sticker)
        ensures
            r.wf(),
            r.facet_spec() == self,
            r.index_spec() == self.id_spec() * 27 + 13,
    {
        make_sticker(self, 0, 0, 0)
    }
}

/// The sticker of `facet` with facet-local coordinates `(q, r, s)`.
fn make_sticker(facet: Facet, q: i8, r: i8, s: i8) -> (st: Sticker)
    requires
        -1 <= q <= 1,
        -1 <= r <= 1,
        -1 <= s <= 1,
    ensures
        st.wf(),
        st.facet_spec() == facet,
        st.index_spec() == facet.id_spec() * 27 + (q + 1) + 3 * (r + 1) + 9 * (s + 1),
        st == sticker_at(facet, q as int, r as int, s as int),
{
    let outer = match facet.sign {
        Sign::Pos => 2,
        Sign::Neg => -2,
    };
    let local = Pos4([q, r, s, outer]);
    let pos = match facet.axis {
        Axis::X => Pos4([outer, r, s, q]),
        Axis::Y => Pos4([q, outer, s, r]),
        Axis::Z => Pos4([q, r, outer, s]),
        Axis::W => local,
    };
    Sticker(pos)
}

/// A turn of the puzzle: rotate the cell `facet` (or the whole puzzle when
/// `None`) in the plane carrying `from` onto `to`.
#[derive(Debug, Copy, Clone, PartialEq, Eq, Structural, Hash)]
pub struct Turn {
    pub facet: Option<Facet>,
    pub from: Facet,
    pub to: Facet,
}

impl Turn {
    /// The turn that undoes this one.
    pub fn inverse(self) -> (r: Turn)
        ensures
            r.facet == self.facet,
            r.from == self.to,
            r.to == self.from,
    {
        Turn { facet: self.facet, from: self.to, to: self.from }
    }
}

/// Position of a piece on the puzzle: every coordinate is -1, 0, or 1.
#[derive(Debug, Copy, Clone, PartialEq, Eq, Hash)]
pub struct Piece(pub Pos4);

impl Piece {
    /// Coordinate along axis `i`.
    pub open spec fn coord(self, i: int) -> int {
        self.0.coord(i)
    }

    /// All coordinates lie in `{-1, 0, 1}`.
    pub open spec fn wf(self) -> bool {
        forall|i: int| 0 <= i < 4 ==> -1 <= #[trigger] self.coord(i) <= 1
    }

    pub open spec fn pos_spec(self) -> Pos4 {
        self.0
    }

    /// The piece whose index in the scanning order of `iter_all` is `i`.
    pub open spec fn of_index_spec(i: int) -> Piece {
        Piece(Pos4([(i % 3 - 1) as i8, ((i / 3) % 3 - 1) as i8, ((i / 9) % 3 - 1) as i8, (i / 27 - 1) as i8]))
    }

    /// The piece at the center of the puzzle.
    pub fn core_piece() -> (r: Piece)
        ensures
            r.wf(),
            forall|i: int| 0 <= i < 4 ==> #[trigger] r.coord(i) == 0,
    {
        Piece(Pos4([0, 0, 0, 0]))
    }

    /// All 81 pieces, in scanning order.
    pub fn iter_all() -> (r: Vec<Piece>)
        ensures
            r@.len() == 81,
            forall|i: int| 0 <= i < 81 ==> #[trigger] r@[i] == Piece::of_index_spec(i) && r@[i].wf(),
    {
        let mut r: Vec<Piece> = Vec::new();
        let mut i: usize = 0;
        while i < 81
            invariant
                i <= 81,
                r@.len() == i,
                forall|k: int|
                    0 <= k < i ==> #[trigger] r@[k] == Piece::of_index_spec(k) && r@[k].wf(),
            decreases 81 - i,
        {
            let x = (i % 3) as i8 - 1;
            let y = ((i / 3) % 3) as i8 - 1;
            let z = ((i / 9) % 3) as i8 - 1;
            let w = (i / 27) as i8 - 1;
            r.push(Piece(Pos4([x, y, z, w])));
            i = i + 1;
        }
        r
    }

    /// Whether `st` is the sticker of this piece along some axis the
    /// piece touches.
    pub open spec fn is_sticker_of(self, st: Sticker) -> bool {
        exists|a: int| 0 <= a < 4 && #[trigger] self.sticker_on(a) == st && self.coord(a) != 0
    }

    /// The sticker of this piece on the facet along axis `a`.
    pub open spec fn sticker_on(self, a: int) -> Sticker {
        Sticker(
            Pos4(
                [
                    (if a == 0 {
                        2 * self.coord(0)
                    } else {
                        self.coord(0)
                    }) as i8,
                    (if a == 1 {
                        2 * self.coord(1)
                    } else {
                        self.coord(1)
                    }) as i8,
                    (if a == 2 {
                        2 * self.coord(2)
                    } else {
                        self.coord(2)
                    }) as i8,
                    (if a == 3 {
                        2 * self.coord(3)
                    } else {
                        self.coord(3)
                    }) as i8,
                ],
            ),
        )
    }

    /// The stickers of this piece: one per facet it touches, in axis
    /// order.
    pub fn stickers(self) -> (r: Vec<Sticker>)
        requires
            self.wf(),
        ensures
            forall|j: int|
                0 <= j < r@.len() ==> (#[trigger] r@[j]).wf() && r@[j].piece_spec() == self,
            forall|a: int| 0 <= a < 4 && self.coord(a) != 0 ==> r@.contains(self.sticker_on(a)),
            forall|j: int| 0 <= j < r@.len() ==> self.is_sticker_of(#[trigger] r@[j]),
    {
        let mut r: Vec<Sticker> = Vec::new();
        let mut a: u8 = 0;
        while a < 4
            invariant
                self.wf(),
                a <= 4,
                forall|j: int|
                    0 <= j < r@.len() ==> (#[trigger] r@[j]).wf() && r@[j].piece_spec() == self,
                forall|aa: int|
                    0 <= aa < a && self.coord(aa) != 0 ==> r@.contains(self.sticker_on(aa)),
                forall|j: int| 0 <= j < r@.len() ==> self.is_sticker_of(#[trigger] r@[j]),
            decreases 4 - a,
        {
            let axis = Axis::from_id(a);
            let c = self.0.get(axis);
            proof {
                assert(-1 <= self.coord(a as int) <= 1);
            }
            if c != 0 {
                let ghost before = r@;
                let st = Sticker(self.0.with_coord(axis, 2 * c));
                proof {
                    assert forall|i: int| 0 <= i < 4 implies st.0.0[i] == self.sticker_on(
                        a as int,
                    ).0.0[i] by {
                        assert(-1 <= self.coord(i) <= 1);
                        assert(st.coord(i) == if i == a as int {
                            2 * self.coord(i)
                        } else {
                            self.coord(i)
                        });
                    }
                    assert(st.0.0 =~= self.sticker_on(a as int).0.0);
                    lemma_sticker_on_wf(self, a as int);
                }
                r.push(st);
                proof {
                    assert(r@[before.len() as int] == self.sticker_on(a as int));
                    assert forall|aa: int|
                        0 <= aa < a + 1 && self.coord(aa) != 0 implies r@.contains(
                        self.sticker_on(aa),
                    ) by {
                        if aa < a {
                            assert(before.contains(self.sticker_on(aa)));
                            let j = choose|j: int|
                                0 <= j < before.len() && before[j] == self.sticker_on(aa);
                            assert(r@[j] == self.sticker_on(aa));
                        } else {
                            assert(r@[before.len() as int] == self.sticker_on(aa));
                        }
                    }
                    assert forall|j: int| 0 <= j < r@.len() implies self.is_sticker_of(
                        #[trigger] r@[j],
                    ) by {
                        if j < before.len() {
                            assert(self.is_sticker_of(before[j]));
                            assert(r@[j] == before[j]);
                        } else {
                            assert(self.sticker_on(a as int) == r@[j]);
                            assert(self.coord(a as int) != 0);
                        }
                    }
                }
            }
            a = a + 1;
        }
        r
    }

    pub fn pos(self) -> (r: Pos4)
        ensures
            r == self.pos_spec(),
    {
        self.0
    }

    /// Rotates a piece from `from` to `to`.
    ///
    /// Returns `None` if `from` and `to` are on the same axis.
    #[must_use]
    pub fn rot(self, from: Facet, to: Facet) -> (r: Option<Piece>)
        requires
            self.wf(),
        ensures
            r is Some <==> from.axis != to.axis,
            r matches Some(p) ==> p.pos_spec() == self.0.rot_spec(from, to) && p.wf(),
    {
        proof {
            assert forall|i: int| 0 <= i < 4 implies i8::MIN < self.0.coord(i) by {
                assert(-1 <= self.coord(i) <= 1);
            }
        }
        match self.0.rot(from, to) {
            Some(p) => {
                proof {
                    if from.axis != to.axis {
                        lemma_rot_piece_wf(self, from, to);
                    }
                }
                Some(Piece(p))
            },
            None => None,
        }
    }
}

/// Position of a sticker on the puzzle: exactly one coordinate is -2 or 2,
/// all others lie in `{-1, 0, 1}`.
#[derive(Debug, Copy, Clone, PartialEq, Eq, Hash)]
pub struct Sticker(pub Pos4);

impl Sticker {
    /// Coordinate along axis `i`.
    pub open spec fn coord(self, i: int) -> int {
        self.0.coord(i)
    }

    /// The first axis whose coordinate has magnitude 2.
    pub open spec fn axis_id_spec(self) -> int {
        if self.coord(0) == 2 || self.coord(0) == -2 {
            0
        } else if self.coord(1) == 2 || self.coord(1) == -2 {
            1
        } else if self.coord(2) == 2 || self.coord(2) == -2 {
            2
        } else {
            3
        }
    }

    /// Exactly one coordinate is -2 or 2; the others lie in `{-1, 0, 1}`.
    pub open spec fn wf(self) -> bool {
        let a = self.axis_id_spec();
        &&& (self.coord(a) == 2 || self.coord(a) == -2)
        &&& forall|i: int| 0 <= i < 4 && i != a ==> -1 <= #[trigger] self.coord(i) <= 1
    }

    pub open spec fn pos_spec(self) -> Pos4 {
        self.0
    }

    /// The facet this sticker lies on.
    pub open spec fn facet_spec(self) -> Facet {
        Facet {
            axis: Axis::from_id_spec(self.axis_id_spec()),
            sign: if self.coord(self.axis_id_spec()) == 2 {
                Sign::Pos
            } else {
                Sign::Neg
            },
        }
    }

    /// The coordinate at local position `i` once the sticker's own axis is
    /// swapped with the last axis.
    pub open spec fn local_coord(self, i: int) -> int {
        let a = self.axis_id_spec();
        if i == a {
            self.coord(3)
        } else if i == 3 {
            self.coord(a)
        } else {
            self.coord(i)
        }
    }

    /// Flat index of this sticker: 27 slots per facet, the facet-local
    /// coordinates encoded in base 3.
    pub open spec fn index_spec(self) -> int {
        self.facet_spec().id_spec() * 27 + (self.local_coord(0) + 1) + (self.local_coord(1) + 1) * 3
            + (self.local_coord(2) + 1) * 9
    }

    /// The piece this sticker belongs to.
    pub open spec fn piece_spec(self) -> Piece {
        Piece(
            Pos4(
                [
                    clamp_unit(self.coord(0)) as i8,
                    clamp_unit(self.coord(1)) as i8,
                    clamp_unit(self.coord(2)) as i8,
                    clamp_unit(self.coord(3)) as i8,
                ],
            ),
        )
    }

    pub fn piece(self) -> (r: Piece)
        requires
            self.wf(),
        ensures
            r == self.piece_spec(),
            r.wf(),
    {
        let c = self.0.0;
        let r = Piece(
            Pos4([clamp_unit_exec(c[0]), clamp_unit_exec(c[1]), clamp_unit_exec(c[2]), clamp_unit_exec(c[3])]),
        );
        proof {
            assert(r.0.0 =~= self.piece_spec().0.0);
        }
        r
    }

    pub fn facet(self) -> (r: Facet)
        requires
            self.wf(),
        ensures
            r == self.facet_spec(),
    {
        let c = self.0.0;
        let axis = if c[0] == 2 || c[0] == -2 {
            Axis::X
        } else if c[1] == 2 || c[1] == -2 {
            Axis::Y
        } else if c[2] == 2 || c[2] == -2 {
            Axis::Z
        } else {
            Axis::W
        };
        let sign = if self.0.get(axis) == 2 {
            Sign::Pos
        } else {
            Sign::Neg
        };
        Facet { axis, sign }
    }

    /// Flat index of this sticker.
    pub fn index(self) -> (r: usize)
        requires
            self.wf(),
        ensures
            r == self.index_spec(),
            r < 216,
    {
        proof {
            lemma_sticker_index_bounds(self);
        }
        let f = self.facet();
        let c = self.0.0;
        let a = f.axis.id() as usize;
        let q = if a == 0 {
            c[3]
        } else {
            c[0]
        };
        let rr = if a == 1 {
            c[3]
        } else {
            c[1]
        };
        let s = if a == 2 {
            c[3]
        } else {
            c[2]
        };
        f.id() as usize * 27 + (q + 1) as usize + (rr + 1) as usize * 3 + (s + 1) as usize * 9
    }

    /// All 216 stickers, in piece scanning order.
    pub fn iter_all() -> (r: Vec<Sticker>)
        ensures
            forall|j: int|
                0 <= j < r@.len() ==> (#[trigger] r@[j]).wf(),
    {
        let pieces = Piece::iter_all();
        let mut r: Vec<Sticker> = Vec::new();
        let mut i: usize = 0;
        while i < pieces.len()
            invariant
                pieces@.len() == 81,
                forall|k: int| 0 <= k < 81 ==> (#[trigger] pieces@[k]).wf(),
                i <= 81,
                forall|j: int| 0 <= j < r@.len() ==> (#[trigger] r@[j]).wf(),
            decreases 81 - i,
        {
            let mut stickers = pieces[i].stickers();
            let mut j: usize = 0;
            while j < stickers.len()
                invariant
                    forall|k: int| 0 <= k < stickers@.len() ==> (#[trigger] stickers@[k]).wf(),
                    j <= stickers@.len(),
                    forall|k: int| 0 <= k < r@.len() ==> (#[trigger] r@[k]).wf(),
                decreases stickers@.len() - j,
            {
                r.push(stickers[j]);
                j = j + 1;
            }
            i = i + 1;
        }
        r
    }

    pub fn pos(self) -> (r: Pos4)
        ensures
            r == self.pos_spec(),
    {
        self.0
    }

    /// Rotates a sticker from `from` to `to`.
    ///
    /// Returns `None` if `from` and `to` are on the same axis.
    #[must_use]
    pub fn rot(self, from: Facet, to: Facet) -> (r: Option<Sticker>)
        requires
            self.wf(),
        ensures
            r is Some <==> from.axis != to.axis,
            r matches Some(p) ==> p.pos_spec() == self.0.rot_spec(from, to) && p.wf(),
    {
        proof {
            let a = self.axis_id_spec();
            assert forall|i: int| 0 <= i < 4 implies i8::MIN < self.0.coord(i) by {
                if i != a {
                    assert(-1 <= self.coord(i) <= 1);
                }
            }
        }
        match self.0.rot(from, to) {
            Some(p) => {
                let st = Sticker(p);
                proof {
                    if from.axis != to.axis {
                        lemma_rot_sticker_wf(self, from, to);
                    }
                }
                Some(st)
            },
            None => None,
        }
    }
}

/// A coordinate clamped to `{-1, 0, 1}`.
pub open spec fn clamp_unit(c: int) -> int {
    if c < -1 {
        -1
    } else if c > 1 {
        1
    } else {
        c
    }
}

fn clamp_unit_exec(c: i8) -> (r: i8)
    ensures
        r == clamp_unit(c as int),
{
    if c < -1 {
        -1
    } else if c > 1 {
        1
    } else {
        c
    }
}

/// A sticker's piece lies on the sticker's facet.
proof fn lemma_sticker_piece_on_facet(st: Sticker)
    requires
        st.wf(),
    ensures
        st.facet_spec().has_pos_spec(st.piece_spec().pos_spec()),
        st.piece_spec().wf(),
{
}

/// Doubling a nonzero unit coordinate yields a well-formed sticker of the
/// piece.
proof fn lemma_sticker_on_wf(p: Piece, a: int)
    requires
        p.wf(),
        0 <= a < 4,
        p.coord(a) != 0,
    ensures
        p.sticker_on(a).wf(),
        p.sticker_on(a).piece_spec() == p,
{
    let st = p.sticker_on(a);
    assert(st.axis_id_spec() == a);
    assert(st.piece_spec().0.0 =~= p.0.0);
}

/// A well-formed sticker's index lies in the flat sticker array.
proof fn lemma_sticker_index_bounds(st: Sticker)
    requires
        st.wf(),
    ensures
        0 <= st.index_spec() < 216,
{
}

/// Rotating in a plane of two distinct axes permutes two coordinates (up
/// to sign) and keeps the rest.
proof fn lemma_rot_coords(p: Pos4, from: Facet, to: Facet)
    requires
        from.axis != to.axis,
        forall|i: int| 0 <= i < 4 ==> -2 <= #[trigger] p.coord(i) <= 2,
    ensures
        forall|i: int|
            0 <= i < 4 ==> #[trigger] p.rot_spec(from, to).coord(i) == (
            if i == to.axis.id_spec() {
                if from.sign != to.sign {
                    -p.coord(from.axis.id_spec())
                } else {
                    p.coord(from.axis.id_spec())
                }
            } else if i == from.axis.id_spec() {
                if from.sign != to.sign {
                    p.coord(to.axis.id_spec())
                } else {
                    -p.coord(to.axis.id_spec())
                }
            } else {
                p.coord(i)
            }),
{
    assert forall|i: int| 0 <= i < 4 implies #[trigger] p.rot_spec(from, to).coord(i) == (
    if i == to.axis.id_spec() {
        if from.sign != to.sign {
            -p.coord(from.axis.id_spec())
        } else {
            p.coord(from.axis.id_spec())
        }
    } else if i == from.axis.id_spec() {
        if from.sign != to.sign {
            p.coord(to.axis.id_spec())
        } else {
            -p.coord(to.axis.id_spec())
        }
    } else {
        p.coord(i)
    }) by {
        assert(-2 <= p.coord(from.axis.id_spec()) <= 2);
        assert(-2 <= p.coord(to.axis.id_spec()) <= 2);
        assert(-2 <= p.coord(i) <= 2);
    }
}

/// Rotating a well-formed piece position keeps every coordinate in the
/// unit range.
proof fn lemma_rot_piece_wf(p: Piece, from: Facet, to: Facet)
    requires
        p.wf(),
        from.axis != to.axis,
    ensures
        Piece(p.0.rot_spec(from, to)).wf(),
{
    assert forall|i: int| 0 <= i < 4 implies -2 <= #[trigger] p.0.coord(i) <= 2 by {
        assert(-1 <= p.coord(i) <= 1);
    }
    lemma_rot_coords(p.0, from, to);
    let q = Piece(p.0.rot_spec(from, to));
    assert forall|i: int| 0 <= i < 4 implies -1 <= #[trigger] q.coord(i) <= 1 by {
        assert(-1 <= p.coord(to.axis.id_spec()) <= 1);
        assert(-1 <= p.coord(from.axis.id_spec()) <= 1);
        assert(-1 <= p.coord(i) <= 1);
        assert(q.0.coord(i) == q.coord(i));
    }
}

/// Rotating a well-formed sticker in a plane of two distinct axes yields a
/// well-formed sticker.
proof fn lemma_rot_sticker_wf(st: Sticker, from: Facet, to: Facet)
    requires
        st.wf(),
        from.axis != to.axis,
    ensures
        Sticker(st.0.rot_spec(from, to)).wf(),
{
    let a = st.axis_id_spec();
    assert forall|i: int| 0 <= i < 4 implies -2 <= #[trigger] st.0.coord(i) <= 2 by {
        if i != a {
            assert(-1 <= st.coord(i) <= 1);
        }
    }
    lemma_rot_coords(st.0, from, to);
    let sp = Sticker(st.0.rot_spec(from, to));
    let fa = from.axis.id_spec();
    let ta = to.axis.id_spec();
    assert(fa != ta);
    // the axis carrying the magnitude-2 coordinate moves with the rotation
    let b = if a == fa {
        ta
    } else if a == ta {
        fa
    } else {
        a
    };
    assert(sp.coord(b) == 2 || sp.coord(b) == -2) by {
        if a == fa {
            assert(sp.coord(ta) == st.coord(fa) || sp.coord(ta) == -st.coord(fa));
        } else if a == ta {
            assert(sp.coord(fa) == st.coord(ta) || sp.coord(fa) == -st.coord(ta));
        } else {
            assert(sp.coord(a) == st.coord(a));
        }
    }
    assert forall|i: int| 0 <= i < 4 && i != b implies -1 <= #[trigger] sp.coord(i) <= 1 by {
        if i == ta {
            assert(a != fa);
            assert(-1 <= st.coord(fa) <= 1);
        } else if i == fa {
            assert(a != ta);
            assert(-1 <= st.coord(ta) <= 1);
        } else {
            assert(i != a);
            assert(-1 <= st.coord(i) <= 1);
        }
    }
    assert(sp.axis_id_spec() == b);
}


/// The sticker of `facet` with facet-local coordinates `(q, r, s)`: the
/// facet's own axis carries the doubled sign and swaps with the last axis.
pub open spec fn sticker_at(facet: Facet, q: int, r: int, s: int) -> Sticker {
    let outer: int = if facet.sign == Sign::Pos {
        2
    } else {
        -2
    };
    match facet.axis {
        Axis::X => Sticker(Pos4([outer as i8, r as i8, s as i8, q as i8])),
        Axis::Y => Sticker(Pos4([q as i8, outer as i8, s as i8, r as i8])),
        Axis::Z => Sticker(Pos4([q as i8, r as i8, outer as i8, s as i8])),
        Axis::W => Sticker(Pos4([q as i8, r as i8, s as i8, outer as i8])),
    }
}

/// The sticker whose flat index is `i`.
pub open spec fn sticker_of_index(i: int) -> Sticker {
    let t = i % 27;
    sticker_at(Facet::from_id_spec(i / 27), t % 3 - 1, (t / 3) % 3 - 1, t / 9 - 1)
}

/// Base-3 digits recompose: for `0 <= t < 27`,
/// `t == t % 3 + 3 * ((t / 3) % 3) + 9 * (t / 9)`.
proof fn lemma_base3(t: int)
    requires
        0 <= t < 27,
    ensures
        t == t % 3 + 3 * ((t / 3) % 3) + 9 * (t / 9),
        0 <= t % 3 < 3,
        0 <= (t / 3) % 3 < 3,
        0 <= t / 9 < 3,
{
    lemma_fundamental_div_mod(t, 3);
    lemma_fundamental_div_mod(t / 3, 3);
    lemma_fundamental_div_mod_converse(t, 9, (t / 3) / 3, 3 * ((t / 3) % 3) + t % 3);
}

/// Decodes a flat index into its sticker.
fn sticker_from_index(i: usize) -> (st: Sticker)
    requires
        i < 216,
    ensures
        st.wf(),
        st == sticker_of_index(i as int),
        st.index_spec() == i,
{
    let f = Facet::from_id((i / 27) as u8);
    let t = i % 27;
    let q = (t % 3) as i8 - 1;
    let r = ((t / 3) % 3) as i8 - 1;
    let s = (t / 9) as i8 - 1;
    proof {
        lemma_base3(t as int);
        lemma_fundamental_div_mod(i as int, 27);
    }
    make_sticker(f, q, r, s)
}

/// Whether a turn of `turn_facet` moves the piece that `st` sits on; a
/// whole-puzzle turn moves everything.
pub open spec fn region_contains(turn_facet: Option<Facet>, st: Sticker) -> bool {
    match turn_facet {
        Some(f) => f.has_pos_spec(st.piece_spec().pos_spec()),
        None => true,
    }
}

/// Whether a turn is geometrically possible: the rotation plane's two axes
/// differ, and the turned cell lies on neither.
pub open spec fn turn_ok(turn: Turn) -> bool {
    match turn.facet {
        Some(f) => f.axis != turn.from.axis && f.axis != turn.to.axis && turn.from.axis
            != turn.to.axis,
        None => turn.from.axis != turn.to.axis,
    }
}

/// The sticker colors after a turn: each slot takes the color of the slot
/// that rotates onto it; slots outside the turned region keep their color.
pub open spec fn turned_spec(s: Seq<Facet>, turn: Turn) -> Seq<Facet> {
    Seq::new(
        216,
        |i: int|
            {
                let src = Sticker(sticker_of_index(i).0.rot_spec(turn.to, turn.from));
                if region_contains(turn.facet, src) {
                    s[src.index_spec()]
                } else {
                    s[i]
                }
            },
    )
}

/// Whether every facet of the puzzle shows a single color.
pub open spec fn is_solved_spec(s: Seq<Facet>) -> bool {
    forall|f: int, i: int| 0 <= f < 8 && 0 <= i < 27 ==> #[trigger] s[f * 27 + i] == s[f * 27]
}

/// Number of turns in a scramble.
pub const SCRAMBLE_MOVE_COUNT: usize = 5000;

/// The 3^4 hypercube puzzle: a color for each of the 216 sticker slots, 27
/// per facet.
#[derive(Debug, Clone, PartialEq, Eq, Hash)]
pub struct Puzzle {
    /// Map from sticker index to color.
    pub stickers: Vec<Facet>,
}

impl Puzzle {
    /// One color slot per sticker.
    pub open spec fn wf(self) -> bool {
        self.stickers@.len() == 216
    }

    /// The solved puzzle: every slot shows its own facet.
    pub fn new_solved() -> (r: Puzzle)
        ensures
            r.wf(),
            forall|i: int|
                0 <= i < 216 ==> #[trigger] r.stickers@[i] == Facet::from_id_spec(i / 27),
    {
        let mut stickers: Vec<Facet> = Vec::new();
        let mut i: usize = 0;
        while i < 216
            invariant
                i <= 216,
                stickers@.len() == i,
                forall|k: int|
                    0 <= k < i ==> #[trigger] stickers@[k] == Facet::from_id_spec(k / 27),
            decreases 216 - i,
        {
            stickers.push(Facet::from_id((i / 27) as u8));
            i = i + 1;
        }
        Puzzle { stickers }
    }

    /// The color shown at a sticker's slot.
    pub fn sticker_color(&self, st: Sticker) -> (r: Facet)
        requires
            self.wf(),
            st.wf(),
        ensures
            r == self.stickers@[st.index_spec()],
    {
        self.stickers[st.index()]
    }

    /// The 27 colors of each facet, by facet identifier.
    pub fn facets(&self) -> (r: Vec<Vec<Facet>>)
        requires
            self.wf(),
        ensures
            r@.len() == 8,
            forall|f: int| 0 <= f < 8 ==> (#[trigger] r@[f])@.len() == 27,
            forall|f: int, i: int|
                0 <= f < 8 && 0 <= i < 27 ==> #[trigger] r@[f]@[i] == self.stickers@[f * 27 + i],
    {
        let mut r: Vec<Vec<Facet>> = Vec::new();
        let mut f: usize = 0;
        while f < 8
            invariant
                self.wf(),
                f <= 8,
                r@.len() == f,
                forall|ff: int| 0 <= ff < f ==> (#[trigger] r@[ff])@.len() == 27,
                forall|ff: int, i: int|
                    0 <= ff < f && 0 <= i < 27 ==> #[trigger] r@[ff]@[i] == self.stickers@[ff * 27
                        + i],
            decreases 8 - f,
        {
            let mut row: Vec<Facet> = Vec::new();
            let mut i: usize = 0;
            while i < 27
                invariant
                    self.wf(),
                    f < 8,
                    i <= 27,
                    row@.len() == i,
                    forall|k: int| 0 <= k < i ==> #[trigger] row@[k] == self.stickers@[f * 27 + k],
                decreases 27 - i,
            {
                row.push(self.stickers[f * 27 + i]);
                i = i + 1;
            }
            r.push(row);
            f = f + 1;
        }
        r
    }

    /// Whether every facet shows a single color.
    pub fn is_solved(&self) -> (r: bool)
        requires
            self.wf(),
        ensures
            r == is_solved_spec(self.stickers@),
    {
        let mut i: usize = 0;
        while i < 216
            invariant
                self.wf(),
                i <= 216,
                forall|k: int|
                    0 <= k < i ==> #[trigger] self.stickers@[k] == self.stickers@[(k / 27) * 27],
            decreases 216 - i,
        {
            if !(self.stickers[i] == self.stickers[(i / 27) * 27]) {
                proof {
                    lemma_fundamental_div_mod(i as int, 27);
                    assert(self.stickers@[(i as int / 27) * 27 + i as int % 27]
                        != self.stickers@[(i as int / 27) * 27]);
                }
                return false;
            }
            i = i + 1;
        }
        proof {
            assert forall|f: int, i2: int|
                0 <= f < 8 && 0 <= i2 < 27 implies #[trigger] self.stickers@[f * 27 + i2]
                == self.stickers@[f * 27] by {
                let k = f * 27 + i2;
                lemma_fundamental_div_mod_converse(k, 27, f, i2);
                assert(self.stickers@[k] == self.stickers@[(k / 27) * 27]);
            }
        }
        true
    }

    /// Does a turn on the puzzle and returns whether it succeeded; a turn
    /// whose geometry is impossible changes nothing.
    pub fn do_turn(&mut self, turn: Turn) -> (r: bool)
        requires
            old(self).wf(),
        ensures
            final(self).wf(),
            r == turn_ok(turn),
            r ==> final(self).stickers@ == turned_spec(old(self).stickers@, turn),
            !r ==> *final(self) == *old(self),
    {
        let possible = match turn.facet {
            Some(f) => {
                !(f.axis.id() == turn.from.axis.id()) && !(f.axis.id() == turn.to.axis.id()) && !(
                turn.from.axis.id() == turn.to.axis.id())
            },
            None => !(turn.from.axis.id() == turn.to.axis.id()),
        };
        if !possible {
            return false;
        }
        let mut new_stickers: Vec<Facet> = Vec::new();
        let mut i: usize = 0;
        while i < 216
            invariant
                self.wf(),
                *self == *old(self),
                turn_ok(turn),
                i <= 216,
                new_stickers@.len() == i,
                forall|k: int|
                    0 <= k < i ==> #[trigger] new_stickers@[k] == turned_spec(
                        self.stickers@,
                        turn,
                    )[k],
            decreases 216 - i,
        {
            let st = sticker_from_index(i);
            let src = match st.rot(turn.to, turn.from) {
                Some(src) => src,
                None => {
                    proof {
                        assert(false);
                    }
                    st
                },
            };
            let in_region = match turn.facet {
                Some(f) => f.has_piece(src.piece()),
                None => true,
            };
            let v = if in_region {
                self.stickers[src.index()]
            } else {
                self.stickers[i]
            };
            new_stickers.push(v);
            i = i + 1;
        }
        proof {
            assert(new_stickers@ =~= turned_spec(self.stickers@, turn));
        }
        self.stickers = new_stickers;
        true
    }

    /// Scrambles the puzzle with the default number of random turns.
    pub fn scramble(&mut self, rng: &mut rand::rngs::SmallRng)
        requires
            old(self).wf(),
        ensures
            final(self).wf(),
    {
        self.scramble_n(rng, SCRAMBLE_MOVE_COUNT);
    }

    /// Scrambles the puzzle with `move_count` random turns; every drawn
    /// turn is geometrically possible, so each one takes effect.
    pub fn scramble_n(&mut self, rng: &mut rand::rngs::SmallRng, move_count: usize)
        requires
            old(self).wf(),
        ensures
            final(self).wf(),
    {
        let mut n: usize = 0;
        while n < move_count
            invariant
                self.wf(),
            decreases move_count - n,
        {
            let (a1, a2, a3) = three_distinct_axis_ids(rng);
            let sign = if random_bool(rng) {
                Sign::Pos
            } else {
                Sign::Neg
            };
            let turn = Turn {
                facet: Some(Facet { axis: Axis::from_id(a1), sign }),
                from: Facet::pos(Axis::from_id(a2)),
                to: Facet::pos(Axis::from_id(a3)),
            };
            let did = self.do_turn(turn);
            proof {
                assert(did);
            }
            n = n + 1;
        }
    }
}

impl Default for Puzzle {
    fn default() -> (r: Puzzle)
        ensures
            r.wf(),
    {
        Puzzle::new_solved()
    }
}

} // verus!

