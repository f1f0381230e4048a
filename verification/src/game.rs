use vstd::prelude::*;

use crate::config::Config;
use crate::error::Blocked;
use crate::error::GameOver;
use crate::error::HoldUsed;
use crate::input::DasState;
use crate::input::FrameInput;
use crate::input::InputState;
use crate::output::FrameOutput;
use crate::piece::Tetromino;
use crate::playfield::Playfield;
use crate::pos::Offset;
use crate::pos::Pos;
use crate::queue::Queue;
use crate::queue::popped;
use crate::rotation::Rot;

verus! {

/// The piece currently falling.
#[derive(Debug, Copy, Clone, PartialEq, Eq, Structural, Hash)]
pub struct FallingPiece {
    pub piece: Tetromino,
    pub rot: Rot,
    pub pos: Pos,
    /// Time of the last successful move, rotation, or spawn.
    pub frame_of_last_move: u64,
}

/// `gy` is the ghost row: the lowest row reachable from `py` by repeated
/// downward translation, every intermediate placement staying legal.
pub open spec fn is_ghost_y(
    pf: Playfield,
    piece: Tetromino,
    rot: Rot,
    px: int,
    py: int,
    gy: int,
) -> bool {
    &&& 0 <= gy <= py
    &&& forall|y: int| gy <= y <= py ==> pf.can_place_spec(piece, rot, px, y)
    &&& (gy == 0 || !pf.can_place_spec(piece, rot, px, gy - 1))
}

/// Whether a ghost position exists: the anchor row is not below the floor
/// and the current placement is legal.
pub open spec fn ghost_exists(pf: Playfield, piece: Tetromino, rot: Rot, px: int, py: int) -> bool {
    py >= 0 && pf.can_place_spec(piece, rot, px, py)
}

/// Every kind's shape contains the offset `(0, 0)`, so a legal placement
/// pins the anchor itself inside the grid.
pub proof fn lemma_can_place_anchor(pf: Playfield, piece: Tetromino, rot: Rot, px: int, py: int)
    requires
        pf.can_place_spec(piece, rot, px, py),
    ensures
        0 <= px < pf.width_spec(),
        0 <= py < pf.height_spec(),
{
    match piece {
        Tetromino::I => {
            assert(pf.block_ok(piece, rot, px, py, 1));
            assert(piece.block_at(rot, px, py, 1) == (px, py));
        },
        Tetromino::J => {
            assert(pf.block_ok(piece, rot, px, py, 2));
            assert(piece.block_at(rot, px, py, 2) == (px, py));
        },
        Tetromino::L => {
            assert(pf.block_ok(piece, rot, px, py, 1));
            assert(piece.block_at(rot, px, py, 1) == (px, py));
        },
        Tetromino::O => {
            assert(pf.block_ok(piece, rot, px, py, 0));
            assert(piece.block_at(rot, px, py, 0) == (px, py));
        },
        Tetromino::S => {
            assert(pf.block_ok(piece, rot, px, py, 1));
            assert(piece.block_at(rot, px, py, 1) == (px, py));
        },
        Tetromino::T => {
            assert(pf.block_ok(piece, rot, px, py, 1));
            assert(piece.block_at(rot, px, py, 1) == (px, py));
        },
        Tetromino::Z => {
            assert(pf.block_ok(piece, rot, px, py, 2));
            assert(piece.block_at(rot, px, py, 2) == (px, py));
        },
    }
}

/// The pending row list is sorted ascending and in bounds.
pub open spec fn pending_rows_wf(rows: Seq<i8>, h: int) -> bool {
    &&& forall|i: int| 0 <= i < rows.len() ==> 0 <= #[trigger] rows[i] < h
    &&& forall|i: int, j: int| 0 <= i < j < rows.len() ==> rows[i] < rows[j]
}

/// Tetris game state: playfield, queue, input timing, falling and held
/// pieces, pending row clears, and the terminal game-over flag.
pub struct Game {
    config: Config,
    playfield: Playfield,
    queue: Queue,
    input_state: InputState,
    /// Time of the last frame, in engine ticks.
    frame: u64,
    falling_piece: FallingPiece,
    held_piece: Option<Tetromino>,
    /// Whether the falling piece has already been held.
    hold_used: bool,
    /// Rows staged for deletion at the start of the next step.
    rows_to_clear: Vec<i8>,
    /// Whether the game has ended; terminal once set.
    game_over: bool,
}

impl Game {
    pub closed spec fn config_spec(self) -> Config {
        self.config
    }

    pub closed spec fn playfield_spec(self) -> Playfield {
        self.playfield
    }

    pub closed spec fn queue_spec(self) -> Queue {
        self.queue
    }

    pub closed spec fn input_spec(self) -> InputState {
        self.input_state
    }

    pub closed spec fn frame_spec(self) -> u64 {
        self.frame
    }

    pub closed spec fn falling_spec(self) -> FallingPiece {
        self.falling_piece
    }

    pub closed spec fn held_spec(self) -> Option<Tetromino> {
        self.held_piece
    }

    pub closed spec fn hold_used_spec(self) -> bool {
        self.hold_used
    }

    pub closed spec fn rows_pending_spec(self) -> Seq<i8> {
        self.rows_to_clear@
    }

    pub closed spec fn over_spec(self) -> bool {
        self.game_over
    }

    /// The engine's internal consistency: configuration and playfield agree
    /// and the queue and pending rows are well formed.
    pub open spec fn wf(self) -> bool {
        &&& self.config_spec().wf()
        &&& self.playfield_spec().wf()
        &&& self.playfield_spec().width_spec() == self.config_spec().width
        &&& self.playfield_spec().height_spec() == self.config_spec().total_height()
        &&& self.queue_spec().wf()
        &&& pending_rows_wf(self.rows_pending_spec(), self.config_spec().total_height())
    }
}

/// The two states agree on everything but the falling piece.
pub open spec fn same_but_falling(g1: Game, g2: Game) -> bool {
    &&& g2.config_spec() == g1.config_spec()
    &&& g2.playfield_spec() == g1.playfield_spec()
    &&& g2.queue_spec() == g1.queue_spec()
    &&& g2.input_spec() == g1.input_spec()
    &&& g2.frame_spec() == g1.frame_spec()
    &&& g2.held_spec() == g1.held_spec()
    &&& g2.hold_used_spec() == g1.hold_used_spec()
    &&& g2.rows_pending_spec() == g1.rows_pending_spec()
    &&& g2.over_spec() == g1.over_spec()
}

/// How a unit move relates two engine states: it succeeds exactly when the
/// translated placement is legal, commits the new anchor and move time on
/// success, and changes nothing on failure.
#[verifier::opaque]
pub open spec fn moved_rel(g1: Game, g2: Game, dx: int, dy: int, r: Result<(), Blocked>) -> bool {
    let fp = g1.falling_spec();
    let npx = fp.pos.x + dx;
    let npy = fp.pos.y + dy;
    &&& (r is Ok <==> g1.playfield_spec().can_place_spec(fp.piece, fp.rot, npx, npy))
    &&& (r is Ok ==> same_but_falling(g1, g2) && g2.falling_spec() == (FallingPiece {
        piece: fp.piece,
        rot: fp.rot,
        pos: Pos { x: npx as i8, y: npy as i8 },
        frame_of_last_move: g1.frame_spec(),
    }))
    &&& (r is Err ==> g2 == g1)
}

/// Whether kick candidate `i` yields a legal placement for a rotation of
/// the falling piece to `target`.
pub open spec fn kick_ok(g: Game, target: Rot, i: int) -> bool {
    let fp = g.falling_spec();
    let k = fp.piece.kick_at(fp.rot, target, i);
    g.playfield_spec().can_place_spec(fp.piece, target, fp.pos.x + k.0, fp.pos.y + k.1)
}

/// How a rotation relates two engine states: the first of the five kick
/// candidates that yields a legal placement is committed; if none does the
/// rotation fails and changes nothing.
#[verifier::opaque]
pub open spec fn rotated_rel(g1: Game, g2: Game, target: Rot, r: Result<(), Blocked>) -> bool {
    let fp = g1.falling_spec();
    &&& (r is Ok <==> exists|i: int| 0 <= i < 5 && #[trigger] kick_ok(g1, target, i))
    &&& (r is Ok ==> exists|i: int|
        {
            &&& 0 <= i < 5
            &&& #[trigger] kick_ok(g1, target, i)
            &&& forall|j: int| 0 <= j < i ==> !kick_ok(g1, target, j)
            &&& same_but_falling(g1, g2)
            &&& g2.falling_spec() == (FallingPiece {
                piece: fp.piece,
                rot: target,
                pos: Pos {
                    x: (fp.pos.x + fp.piece.kick_at(fp.rot, target, i).0) as i8,
                    y: (fp.pos.y + fp.piece.kick_at(fp.rot, target, i).1) as i8,
                },
                frame_of_last_move: g1.frame_spec(),
            })
        })
    &&& (r is Err ==> g2 == g1)
}

/// After a spawn, the falling piece stands at the spawn anchor in the
/// initial rotation, and the game ends if no ghost position exists there.
pub open spec fn spawned(g1: Game, g2: Game, k: Tetromino) -> bool {
    &&& g2.falling_spec() == (FallingPiece {
        piece: k,
        rot: Rot::Init,
        pos: g1.config_spec().spawn_pos,
        frame_of_last_move: g1.frame_spec(),
    })
    &&& g2.over_spec() == (g1.over_spec() || !ghost_exists(
        g2.playfield_spec(),
        k,
        Rot::Init,
        g1.config_spec().spawn_pos.x as int,
        g1.config_spec().spawn_pos.y as int,
    ))
}

/// How locking a piece at `(px, py)` relates two engine states: the four
/// blocks are written into the playfield, the next piece is popped from the
/// queue and spawned, and the hold flag is cleared.
pub open spec fn locked_into(g1: Game, g2: Game, piece: Tetromino, rot: Rot, px: int, py: int) -> bool {
    &&& g2.config_spec() == g1.config_spec()
    &&& g2.input_spec() == g1.input_spec()
    &&& g2.frame_spec() == g1.frame_spec()
    &&& g2.held_spec() == g1.held_spec()
    &&& g2.rows_pending_spec() == g1.rows_pending_spec()
    &&& !g2.hold_used_spec()
    &&& g2.playfield_spec().width_spec() == g1.playfield_spec().width_spec()
    &&& g2.playfield_spec().height_spec() == g1.playfield_spec().height_spec()
    &&& forall|x: int, y: int|
        g1.playfield_spec().in_bounds(x, y) ==> #[trigger] g2.playfield_spec().cell(x, y) == (
        if Playfield::covers(piece, rot, px, py, x, y) {
            Some(piece)
        } else {
            g1.playfield_spec().cell(x, y)
        })
    &&& popped(g1.queue_spec(), g2.queue_spec(), g2.falling_spec().piece)
    &&& spawned(g1, g2, g2.falling_spec().piece)
}

/// How a hard drop relates two engine states: the piece falls to its ghost
/// position and locks there; it fails only when no ghost position exists,
/// changing nothing.
#[verifier::opaque]
pub open spec fn hard_drop_rel(g1: Game, g2: Game, r: Result<[FallingPiece; 2], Blocked>) -> bool {
    let fp = g1.falling_spec();
    &&& (r is Ok <==> ghost_exists(
        g1.playfield_spec(),
        fp.piece,
        fp.rot,
        fp.pos.x as int,
        fp.pos.y as int,
    ))
    &&& (r is Err ==> g2 == g1)
    &&& (r matches Ok(out) ==> exists|gy: int|
        {
            &&& #[trigger] is_ghost_y(
                g1.playfield_spec(),
                fp.piece,
                fp.rot,
                fp.pos.x as int,
                fp.pos.y as int,
                gy,
            )
            &&& out[0] == fp
            &&& out[1] == (FallingPiece {
                piece: fp.piece,
                rot: fp.rot,
                pos: Pos { x: fp.pos.x, y: gy as i8 },
                frame_of_last_move: fp.frame_of_last_move,
            })
            &&& locked_into(g1, g2, fp.piece, fp.rot, fp.pos.x as int, gy)
        })
}

/// How a hold relates two engine states: it fails when hold was already
/// used since the last lock; otherwise the falling kind moves into the held
/// slot and the evicted kind (or a fresh queue piece) spawns.
#[verifier::opaque]
pub open spec fn hold_rel(g1: Game, g2: Game, r: Result<(), HoldUsed>) -> bool {
    &&& (r is Err <==> g1.hold_used_spec())
    &&& (r is Err ==> g2 == g1)
    &&& (r is Ok ==> {
        &&& g2.config_spec() == g1.config_spec()
        &&& g2.playfield_spec() == g1.playfield_spec()
        &&& g2.input_spec() == g1.input_spec()
        &&& g2.frame_spec() == g1.frame_spec()
        &&& g2.rows_pending_spec() == g1.rows_pending_spec()
        &&& g2.hold_used_spec()
        &&& g2.held_spec() == Some(g1.falling_spec().piece)
        &&& match g1.held_spec() {
            Some(k) => g2.queue_spec() == g1.queue_spec() && spawned(g1, g2, k),
            None => popped(g1.queue_spec(), g2.queue_spec(), g2.falling_spec().piece) && spawned(
                g1,
                g2,
                g2.falling_spec().piece,
            ),
        }
    })
}

/// Copies a row list.
fn copy_rows(v: &Vec<i8>) -> (r: Vec<i8>)
    ensures
        r@ == v@,
{
    let mut r: Vec<i8> = Vec::new();
    let mut i: usize = 0;
    while i < v.len()
        invariant
            i <= v@.len(),
            r@ == v@.subrange(0, i as int),
        decreases v@.len() - i,
    {
        r.push(v[i]);
        proof {
            assert(r@ =~= v@.subrange(0, i + 1));
        }
        i = i + 1;
    }
    proof {
        assert(r@ =~= v@);
    }
    r
}

/// How `delete_row` relates two playfields.
pub open spec fn deleted_one(a: Playfield, b: Playfield, row: i8) -> bool {
    &&& b.wf()
    &&& b.width_spec() == a.width_spec()
    &&& b.height_spec() == a.height_spec()
    &&& forall|x: int, y: int|
        a.in_bounds(x, y) && y < row ==> #[trigger] b.cell(x, y) == a.cell(x, y)
    &&& forall|x: int, y: int|
        a.in_bounds(x, y) && row <= y < a.height_spec() - 1 ==> #[trigger] b.cell(x, y) == a.cell(
            x,
            y + 1,
        )
    &&& forall|x: int, y: int|
        a.in_bounds(x, y) && y == a.height_spec() - 1 ==> #[trigger] b.cell(x, y) is None
}

/// The rows of `rows` were deleted one by one, from the last listed row to
/// the first.
pub open spec fn deleted_rows(a: Playfield, b: Playfield, rows: Seq<i8>) -> bool
    decreases rows.len(),
{
    if rows.len() == 0 {
        b == a
    } else {
        exists|mid: Playfield|
            #[trigger] deleted_one(a, mid, rows.last()) && deleted_rows(mid, b, rows.drop_last())
    }
}

/// Deleting one more row at the front of the processing order extends the
/// multi-row deletion relation.
proof fn lemma_deleted_rows_extend(a: Playfield, b: Playfield, c: Playfield, rows: Seq<i8>, r0: i8)
    requires
        deleted_rows(a, b, rows),
        deleted_one(b, c, r0),
    ensures
        deleted_rows(a, c, seq![r0] + rows),
    decreases rows.len(),
{
    let ext = seq![r0] + rows;
    if rows.len() == 0 {
        assert(b == a);
        assert(ext.last() == r0);
        assert(ext.drop_last() =~= Seq::<i8>::empty());
        assert(deleted_one(a, c, ext.last()));
        assert(deleted_rows(c, c, ext.drop_last()));
    } else {
        let mid = choose|mid: Playfield|
            #[trigger] deleted_one(a, mid, rows.last()) && deleted_rows(mid, b, rows.drop_last());
        lemma_deleted_rows_extend(mid, b, c, rows.drop_last(), r0);
        assert(ext.last() == rows.last());
        assert(ext.drop_last() =~= seq![r0] + rows.drop_last());
        assert(deleted_one(a, mid, ext.last()));
        assert(deleted_rows(mid, c, ext.drop_last()));
    }
}

/// The list is exactly the full rows of the playfield, ascending.
pub open spec fn rows_are_full_rows(pf: Playfield, rows: Seq<i8>) -> bool {
    &&& forall|i: int|
        0 <= i < rows.len() ==> 0 <= #[trigger] rows[i] < pf.height_spec() && pf.row_full(
            rows[i] as int,
        )
    &&& forall|y: int| 0 <= y < pf.height_spec() && pf.row_full(y) ==> rows.contains(y as i8)
    &&& forall|i: int, j: int| 0 <= i < j < rows.len() ==> rows[i] < rows[j]
}

/// The two states agree on everything but the game-over flag.
pub open spec fn same_but_over(g1: Game, g2: Game) -> bool {
    &&& g2.config_spec() == g1.config_spec()
    &&& g2.playfield_spec() == g1.playfield_spec()
    &&& g2.queue_spec() == g1.queue_spec()
    &&& g2.input_spec() == g1.input_spec()
    &&& g2.frame_spec() == g1.frame_spec()
    &&& g2.falling_spec() == g1.falling_spec()
    &&& g2.held_spec() == g1.held_spec()
    &&& g2.hold_used_spec() == g1.hold_used_spec()
    &&& g2.rows_pending_spec() == g1.rows_pending_spec()
}

/// Phase one of a step: the previously staged rows are deleted (highest
/// first), the clock advances by the step's delta, the raw button snapshot
/// runs through the auto-shift machinery yielding the effective requests
/// `req`, and the current full rows are staged for the next step.
pub open spec fn step_prepared(
    g0: Game,
    ga: Game,
    delta: u64,
    keys: FrameInput,
    req: FrameInput,
) -> bool {
    let now = (g0.frame_spec() + delta) as u64;
    let das = g0.config_spec().das;
    &&& ga.config_spec() == g0.config_spec()
    &&& ga.queue_spec() == g0.queue_spec()
    &&& ga.falling_spec() == g0.falling_spec()
    &&& ga.held_spec() == g0.held_spec()
    &&& ga.hold_used_spec() == g0.hold_used_spec()
    &&& ga.over_spec() == g0.over_spec()
    &&& ga.frame_spec() == now
    &&& deleted_rows(g0.playfield_spec(), ga.playfield_spec(), g0.rows_pending_spec())
    &&& ga.input_spec().keys_down == keys
    &&& (ga.input_spec().left, req.left) == DasState::update_spec(
        g0.input_spec().left,
        das,
        now,
        keys.left,
    )
    &&& (ga.input_spec().right, req.right) == DasState::update_spec(
        g0.input_spec().right,
        das,
        now,
        keys.right,
    )
    &&& (ga.input_spec().soft_drop, req.soft_drop) == DasState::update_spec(
        g0.input_spec().soft_drop,
        das,
        now,
        keys.soft_drop,
    )
    &&& req.hard_drop == (keys.hard_drop && !g0.input_spec().keys_down.hard_drop)
    &&& req.rot_cw == (keys.rot_cw && !g0.input_spec().keys_down.rot_cw)
    &&& req.rot_ccw == (keys.rot_ccw && !g0.input_spec().keys_down.rot_ccw)
    &&& req.rot_180 == (keys.rot_180 && !g0.input_spec().keys_down.rot_180)
    &&& req.hold == (keys.hold && !g0.input_spec().keys_down.hold)
    &&& rows_are_full_rows(ga.playfield_spec(), ga.rows_pending_spec())
}

/// A move slot of the frame outcome: attempted exactly when requested.
pub open spec fn slot_move(
    a: Game,
    b: Game,
    dx: int,
    dy: int,
    flag: bool,
    slot: Option<Result<(), Blocked>>,
) -> bool {
    if flag {
        slot matches Some(res) && moved_rel(a, b, dx, dy, res)
    } else {
        slot is None && b == a
    }
}

/// A rotation slot of the frame outcome; `steps` is the number of
/// clockwise quarter turns of the attempted rotation.
pub open spec fn slot_rot(
    a: Game,
    b: Game,
    steps: int,
    flag: bool,
    slot: Option<Result<(), Blocked>>,
) -> bool {
    if flag {
        slot matches Some(res) && rotated_rel(
            a,
            b,
            Rot::from_index_spec(a.falling_spec().rot.index_spec() + steps),
            res,
        )
    } else {
        slot is None && b == a
    }
}

/// The hard-drop slot of the frame outcome: on success the slot holds the
/// pre-drop piece and `locked` the piece as it locked.
pub open spec fn slot_hard(
    a: Game,
    b: Game,
    flag: bool,
    slot: Option<Result<FallingPiece, Blocked>>,
    locked: Option<FallingPiece>,
) -> bool {
    if flag {
        exists|res: Result<[FallingPiece; 2], Blocked>|
            #[trigger] hard_drop_rel(a, b, res) && match res {
                Ok(arr) => slot == Some(Ok::<FallingPiece, Blocked>(arr[0])) && locked == Some(
                    arr[1],
                ),
                Err(e) => slot == Some(Err::<FallingPiece, Blocked>(e)) && locked is None,
            }
    } else {
        slot is None && locked is None && b == a
    }
}

/// The hold slot of the frame outcome.
pub open spec fn slot_hold(
    a: Game,
    b: Game,
    flag: bool,
    slot: Option<Result<(), HoldUsed>>,
) -> bool {
    if flag {
        slot matches Some(res) && hold_rel(a, b, res)
    } else {
        slot is None && b == a
    }
}

/// How the eight action slots of one frame relate two engine states: the
/// actions run in a fixed order, each relating two adjacent intermediate
/// states.
pub open spec fn actions_rel(ga: Game, g8: Game, req: FrameInput, out: FrameOutput) -> bool {
    exists|s: Seq<Game>|
        {
            &&& s.len() == 9
            &&& s[0] == ga
            &&& s[8] == g8
            &&& #[trigger] slot_move(s[0], s[1], -1, 0, req.left, out.left)
            &&& slot_move(s[1], s[2], 1, 0, req.right, out.right)
            &&& slot_move(s[2], s[3], 0, -1, req.soft_drop, out.soft_drop)
            &&& slot_hard(s[3], s[4], req.hard_drop, out.hard_drop, out.locked_piece)
            &&& slot_rot(s[4], s[5], 1, req.rot_cw, out.rot_cw)
            &&& slot_rot(s[5], s[6], 3, req.rot_ccw, out.rot_ccw)
            &&& slot_rot(s[6], s[7], 2, req.rot_180, out.rot_180)
            &&& slot_hold(s[7], s[8], req.hold, out.hold)
        }
}

/// How one step relates two engine states and its outcome record: phase
/// one prepares the frame, then the eight actions run in a fixed order,
/// and finally the game-over condition is rechecked on the resulting
/// position. The cleared-rows report names the rows staged in phase one.
pub open spec fn step_rel(
    g0: Game,
    gz: Game,
    delta: u64,
    keys: FrameInput,
    out: FrameOutput,
) -> bool {
    exists|ga: Game, g8: Game, req: FrameInput|
        {
            &&& step_prepared(g0, ga, delta, keys, req)
            &&& #[trigger] actions_rel(ga, g8, req, out)
            &&& same_but_over(g8, gz)
            &&& gz.over_spec() == (g8.over_spec() || !ghost_exists(
                g8.playfield_spec(),
                g8.falling_spec().piece,
                g8.falling_spec().rot,
                g8.falling_spec().pos.x as int,
                g8.falling_spec().pos.y as int,
            ))
            &&& (out.rows_cleared matches Some(v) ==> v@ == ga.rows_pending_spec() && v@.len()
                > 0)
            &&& (out.rows_cleared is None ==> ga.rows_pending_spec().len() == 0)
        }
}

/// Packages the per-action facts gathered while running the eight action
/// slots into the action-chain relation, witnessing the intermediate
/// states.
proof fn lemma_actions_intro(
    ga: Game,
    g1: Game,
    g2: Game,
    g3: Game,
    g4: Game,
    g5: Game,
    g6: Game,
    g7: Game,
    g8: Game,
    req: FrameInput,
    out: FrameOutput,
)
    requires
        slot_move(ga, g1, -1, 0, req.left, out.left),
        slot_move(g1, g2, 1, 0, req.right, out.right),
        slot_move(g2, g3, 0, -1, req.soft_drop, out.soft_drop),
        slot_hard(g3, g4, req.hard_drop, out.hard_drop, out.locked_piece),
        slot_rot(g4, g5, 1, req.rot_cw, out.rot_cw),
        slot_rot(g5, g6, 3, req.rot_ccw, out.rot_ccw),
        slot_rot(g6, g7, 2, req.rot_180, out.rot_180),
        slot_hold(g7, g8, req.hold, out.hold),
    ensures
        actions_rel(ga, g8, req, out),
{
    let s = seq![ga, g1, g2, g3, g4, g5, g6, g7, g8];
    assert(s.len() == 9);
    assert(s[0] == ga && s[1] == g1 && s[2] == g2 && s[3] == g3 && s[4] == g4 && s[5] == g5 && s[6]
        == g6 && s[7] == g7 && s[8] == g8);
    assert(slot_move(s[0], s[1], -1, 0, req.left, out.left));
}

/// Packages the phase facts gathered inside `step` into the step relation.
proof fn lemma_step_rel_intro(
    g0: Game,
    ga: Game,
    g8: Game,
    gz: Game,
    delta: u64,
    keys: FrameInput,
    req: FrameInput,
    out: FrameOutput,
)
    requires
        step_prepared(g0, ga, delta, keys, req),
        actions_rel(ga, g8, req, out),
        same_but_over(g8, gz),
        gz.over_spec() == (g8.over_spec() || !ghost_exists(
            g8.playfield_spec(),
            g8.falling_spec().piece,
            g8.falling_spec().rot,
            g8.falling_spec().pos.x as int,
            g8.falling_spec().pos.y as int,
        )),
        out.rows_cleared matches Some(v) ==> v@ == ga.rows_pending_spec() && v@.len() > 0,
        out.rows_cleared is None ==> ga.rows_pending_spec().len() == 0,
    ensures
        step_rel(g0, gz, delta, keys, out),
{
}

/// Idempotence of failed actions: when a move, rotation, hard drop, or
/// hold fails, the engine state after the attempt is identical to the
/// state before it.
pub proof fn lemma_failed_actions_idempotent(
    g1: Game,
    g2: Game,
    dx: int,
    dy: int,
    target: Rot,
    move_result: Result<(), Blocked>,
    rotate_result: Result<(), Blocked>,
    drop_result: Result<[FallingPiece; 2], Blocked>,
    hold_result: Result<(), HoldUsed>,
)
    ensures
        moved_rel(g1, g2, dx, dy, move_result) && move_result is Err ==> g2 == g1,
        rotated_rel(g1, g2, target, rotate_result) && rotate_result is Err ==> g2 == g1,
        hard_drop_rel(g1, g2, drop_result) && drop_result is Err ==> g2 == g1,
        hold_rel(g1, g2, hold_result) && hold_result is Err ==> g2 == g1,
{
    reveal(moved_rel);
    reveal(rotated_rel);
    reveal(hard_drop_rel);
    reveal(hold_rel);
}

/// Hold exchange: holding when the hold slot is free succeeds, setting the
/// falling kind aside and spawning the previously held kind, or a fresh
/// piece from the queue's front when nothing was held; holding again
/// before any lock fails with `HoldUsed` and changes nothing.
pub proof fn lemma_hold_exchange(
    g1: Game,
    g2: Game,
    g3: Game,
    r1: Result<(), HoldUsed>,
    r2: Result<(), HoldUsed>,
)
    requires
        !g1.hold_used_spec(),
        hold_rel(g1, g2, r1),
        hold_rel(g2, g3, r2),
    ensures
        r1 is Ok,
        g2.held_spec() == Some(g1.falling_spec().piece),
        g2.playfield_spec() == g1.playfield_spec(),
        g1.held_spec() is None ==> popped(
            g1.queue_spec(),
            g2.queue_spec(),
            g2.falling_spec().piece,
        ),
        g1.held_spec() matches Some(k) ==> g2.falling_spec().piece == k && g2.queue_spec()
            == g1.queue_spec(),
        g2.falling_spec().rot == Rot::Init,
        g2.falling_spec().pos == g1.config_spec().spawn_pos,
        r2 is Err && g3 == g2,
{
    reveal(hold_rel);
}

/// The step's clock arithmetic stays within the tick range.
pub open spec fn step_time_ok(g: Game, delta: u64) -> bool {
    &&& g.frame_spec() + delta <= u64::MAX
    &&& (g.config_spec().das matches Some(d) ==> g.frame_spec() + delta + d.delay <= u64::MAX
        && g.frame_spec() + delta + d.arr <= u64::MAX)
}

impl Game {
    /// Creates a new game: an empty playfield and the first piece spawned
    /// from a freshly shuffled bag.
    pub fn new(config: Config, first_frame: u64, rng: rand::rngs::SmallRng) -> (r: Game)
        requires
            config.wf(),
        ensures
            r.wf(),
            r.config_spec() == config,
            r.frame_spec() == first_frame,
            r.input_spec() == InputState::released(),
            r.held_spec() is None,
            !r.hold_used_spec(),
            r.rows_pending_spec() == seq![0i8],
            forall|x: int, y: int|
                r.playfield_spec().in_bounds(x, y) ==> #[trigger] r.playfield_spec().cell(x, y)
                    is None,
            exists|bag: Seq<Tetromino>|
                crate::queue::is_full_bag(bag) && r.falling_spec().piece == bag[0]
                    && r.queue_spec().pieces() == bag.remove(0),
            r.falling_spec().rot == Rot::Init,
            r.falling_spec().pos == config.spawn_pos,
            r.falling_spec().frame_of_last_move == first_frame,
            r.over_spec() == !ghost_exists(
                r.playfield_spec(),
                r.falling_spec().piece,
                Rot::Init,
                config.spawn_pos.x as int,
                config.spawn_pos.y as int,
            ),
    {
        let total_height = config.height + config.buffer_height;
        let mut rows_to_clear: Vec<i8> = Vec::new();
        rows_to_clear.push(0);
        let mut ret = Game {
            config,
            playfield: Playfield::new(config.width, total_height),
            queue: Queue::new(rng),
            input_state: InputState::default(),
            frame: first_frame,
            falling_piece: FallingPiece {
                piece: Tetromino::I,
                rot: Rot::Init,
                pos: Pos { x: 0, y: 0 },
                frame_of_last_move: first_frame,
            },
            held_piece: None,
            hold_used: false,
            rows_to_clear,
            game_over: false,
        };
        ret.next_piece();
        ret
    }

    /// Pops the next kind from the queue and spawns it.
    fn next_piece(&mut self)
        requires
            old(self).wf(),
        ensures
            final(self).wf(),
            final(self).config_spec() == old(self).config_spec(),
            final(self).playfield_spec() == old(self).playfield_spec(),
            final(self).input_spec() == old(self).input_spec(),
            final(self).frame_spec() == old(self).frame_spec(),
            final(self).held_spec() == old(self).held_spec(),
            final(self).hold_used_spec() == old(self).hold_used_spec(),
            final(self).rows_pending_spec() == old(self).rows_pending_spec(),
            popped(old(self).queue_spec(), final(self).queue_spec(), final(self).falling_spec().piece),
            spawned(*old(self), *final(self), final(self).falling_spec().piece),
    {
        let new_piece = self.queue.pop_piece();
        self.init_falling_piece(new_piece);
    }

    /// Places a fresh falling piece at the spawn anchor; the game ends if
    /// the piece has no ghost position there.
    fn init_falling_piece(&mut self, piece: Tetromino)
        requires
            old(self).wf(),
        ensures
            final(self).wf(),
            final(self).config_spec() == old(self).config_spec(),
            final(self).playfield_spec() == old(self).playfield_spec(),
            final(self).queue_spec() == old(self).queue_spec(),
            final(self).input_spec() == old(self).input_spec(),
            final(self).frame_spec() == old(self).frame_spec(),
            final(self).held_spec() == old(self).held_spec(),
            final(self).hold_used_spec() == old(self).hold_used_spec(),
            final(self).rows_pending_spec() == old(self).rows_pending_spec(),
            spawned(*old(self), *final(self), piece),
    {
        self.falling_piece = FallingPiece {
            piece,
            rot: Rot::Init,
            pos: self.config.spawn_pos,
            frame_of_last_move: self.frame,
        };
        if self.ghost_piece_pos().is_none() {
            self.game_over = true;  // piece was spawned overlapping a block
        }
    }

    /// Replaces the falling piece when its placement is legal.
    fn set_falling_piece(&mut self, new_falling_piece: FallingPiece) -> (r: Result<(), Blocked>)
        requires
            old(self).wf(),
        ensures
            final(self).wf(),
            r is Ok <==> old(self).playfield_spec().can_place_spec(
                new_falling_piece.piece,
                new_falling_piece.rot,
                new_falling_piece.pos.x as int,
                new_falling_piece.pos.y as int,
            ),
            r is Ok ==> same_but_falling(*old(self), *final(self)) && final(self).falling_spec()
                == new_falling_piece,
            r is Err ==> *final(self) == *old(self),
    {
        if self.playfield.can_place_piece(
            new_falling_piece.piece,
            new_falling_piece.rot,
            new_falling_piece.pos,
        ) {
            self.falling_piece = new_falling_piece;
            Ok(())
        } else {
            Err(Blocked)
        }
    }

    /// Writes the falling piece into the playfield, then spawns the next
    /// piece and clears the hold flag.
    fn lock_falling_piece(&mut self) -> (r: Result<(), Blocked>)
        requires
            old(self).wf(),
        ensures
            final(self).wf(),
            r is Ok <==> old(self).playfield_spec().can_place_spec(
                old(self).falling_spec().piece,
                old(self).falling_spec().rot,
                old(self).falling_spec().pos.x as int,
                old(self).falling_spec().pos.y as int,
            ),
            r is Ok ==> locked_into(
                *old(self),
                *final(self),
                old(self).falling_spec().piece,
                old(self).falling_spec().rot,
                old(self).falling_spec().pos.x as int,
                old(self).falling_spec().pos.y as int,
            ),
            r is Err ==> *final(self) == *old(self),
    {
        let fp = self.falling_piece;
        match self.playfield.place_piece(fp.piece, fp.rot, fp.pos) {
            Ok(()) => {
                self.next_piece();
                self.hold_used = false;
                Ok(())
            },
            Err(e) => Err(e),
        }
    }

    /// The current falling piece.
    pub fn falling_piece(&self) -> (r: FallingPiece)
        ensures
            r == self.falling_spec(),
    {
        self.falling_piece
    }

    /// The playfield.
    pub fn playfield(&self) -> (r: &Playfield)
        ensures
            *r == self.playfield_spec(),
    {
        &self.playfield
    }

    /// The configuration.
    pub fn config(&self) -> (r: &Config)
        ensures
            *r == self.config_spec(),
    {
        &self.config
    }

    /// The held piece, if any.
    pub fn held_piece(&self) -> (r: Option<Tetromino>)
        ensures
            r == self.held_spec(),
    {
        self.held_piece
    }

    /// Mutable access to the piece queue, for lookahead display.
    pub fn queue(&mut self) -> (r: &mut Queue)
        ensures
            *r == old(self).queue_spec(),
            final(self).queue_spec() == *final(r),
            final(self).config_spec() == old(self).config_spec(),
            final(self).playfield_spec() == old(self).playfield_spec(),
            final(self).input_spec() == old(self).input_spec(),
            final(self).frame_spec() == old(self).frame_spec(),
            final(self).falling_spec() == old(self).falling_spec(),
            final(self).held_spec() == old(self).held_spec(),
            final(self).hold_used_spec() == old(self).hold_used_spec(),
            final(self).rows_pending_spec() == old(self).rows_pending_spec(),
            final(self).over_spec() == old(self).over_spec(),
    {
        &mut self.queue
    }

    /// The ghost position: the lowest legal resting anchor straight below
    /// the falling piece, or `None` when the current placement itself is
    /// illegal.
    pub fn ghost_piece_pos(&self) -> (r: Option<Pos>)
        requires
            self.wf(),
        ensures
            r is Some <==> ghost_exists(
                self.playfield_spec(),
                self.falling_spec().piece,
                self.falling_spec().rot,
                self.falling_spec().pos.x as int,
                self.falling_spec().pos.y as int,
            ),
            r matches Some(p) ==> p.x == self.falling_spec().pos.x && is_ghost_y(
                self.playfield_spec(),
                self.falling_spec().piece,
                self.falling_spec().rot,
                self.falling_spec().pos.x as int,
                self.falling_spec().pos.y as int,
                p.y as int,
            ),
    {
        let fp = self.falling_piece;
        if fp.pos.y < 0 {
            return None;
        }
        if !self.playfield.can_place_piece(fp.piece, fp.rot, fp.pos) {
            return None;
        }
        let mut y: i8 = fp.pos.y;
        loop
            invariant_except_break
                self.wf(),
                0 <= y <= fp.pos.y,
                fp == self.falling_spec(),
                forall|yy: int|
                    y <= yy <= fp.pos.y ==> self.playfield_spec().can_place_spec(
                        fp.piece,
                        fp.rot,
                        fp.pos.x as int,
                        yy,
                    ),
            ensures
                0 <= y <= fp.pos.y,
                forall|yy: int|
                    y <= yy <= fp.pos.y ==> self.playfield_spec().can_place_spec(
                        fp.piece,
                        fp.rot,
                        fp.pos.x as int,
                        yy,
                    ),
                y == 0 || !self.playfield_spec().can_place_spec(
                    fp.piece,
                    fp.rot,
                    fp.pos.x as int,
                    y - 1,
                ),
            decreases y,
        {
            if y == 0 {
                break;
            }
            let below = Pos { x: fp.pos.x, y: y - 1 };
            if !self.playfield.can_place_piece(fp.piece, fp.rot, below) {
                break;
            }
            y = y - 1;
        }
        Some(Pos { x: fp.pos.x, y })
    }

    /// Attempts to move the falling piece one cell to the left.
    pub fn move_left(&mut self) -> (r: Result<(), Blocked>)
        requires
            old(self).wf(),
        ensures
            final(self).wf(),
            moved_rel(*old(self), *final(self), -1, 0, r),
    {
        self.input_move(Offset::left())
    }

    /// Attempts to move the falling piece one cell to the right.
    pub fn move_right(&mut self) -> (r: Result<(), Blocked>)
        requires
            old(self).wf(),
        ensures
            final(self).wf(),
            moved_rel(*old(self), *final(self), 1, 0, r),
    {
        self.input_move(Offset::right())
    }

    /// Attempts to soft-drop the falling piece one cell down.
    pub fn soft_drop(&mut self) -> (r: Result<(), Blocked>)
        requires
            old(self).wf(),
        ensures
            final(self).wf(),
            moved_rel(*old(self), *final(self), 0, -1, r),
    {
        self.input_move(Offset::down())
    }

    /// Attempts to translate the falling piece by a unit offset.
    fn input_move(&mut self, delta: Offset) -> (r: Result<(), Blocked>)
        requires
            old(self).wf(),
        ensures
            final(self).wf(),
            moved_rel(*old(self), *final(self), delta.dx as int, delta.dy as int, r),
    {
        proof {
            reveal(moved_rel);
        }
        let fp = self.falling_piece;
        match fp.pos.checked_add(delta) {
            Some(np) => self.set_falling_piece(
                FallingPiece {
                    piece: fp.piece,
                    rot: fp.rot,
                    pos: np,
                    frame_of_last_move: self.frame,
                },
            ),
            None => {
                proof {
                    if self.playfield_spec().can_place_spec(
                        fp.piece,
                        fp.rot,
                        fp.pos.x + delta.dx,
                        fp.pos.y + delta.dy,
                    ) {
                        lemma_can_place_anchor(
                            self.playfield_spec(),
                            fp.piece,
                            fp.rot,
                            fp.pos.x + delta.dx,
                            fp.pos.y + delta.dy,
                        );
                    }
                }
                Err(Blocked)
            },
        }
    }

    /// Attempts to rotate the piece 90 degrees clockwise.
    pub fn rotate_cw(&mut self) -> (r: Result<(), Blocked>)
        requires
            old(self).wf(),
        ensures
            final(self).wf(),
            rotated_rel(*old(self), *final(self), old(self).falling_spec().rot.rot_cw_spec(), r),
    {
        let target = self.falling_piece.rot.rot_cw();
        self.input_rotate(target)
    }

    /// Attempts to rotate the piece 180 degrees.
    pub fn rotate_180(&mut self) -> (r: Result<(), Blocked>)
        requires
            old(self).wf(),
        ensures
            final(self).wf(),
            rotated_rel(*old(self), *final(self), old(self).falling_spec().rot.rot_180_spec(), r),
    {
        let target = self.falling_piece.rot.rot_180();
        self.input_rotate(target)
    }

    /// Attempts to rotate the piece 90 degrees counterclockwise.
    pub fn rotate_ccw(&mut self) -> (r: Result<(), Blocked>)
        requires
            old(self).wf(),
        ensures
            final(self).wf(),
            rotated_rel(*old(self), *final(self), old(self).falling_spec().rot.rot_ccw_spec(), r),
    {
        let target = self.falling_piece.rot.rot_ccw();
        self.input_rotate(target)
    }

    /// Tries the five kick candidates in order and commits the first legal
    /// placement at the target rotation.
    fn input_rotate(&mut self, final_rotation: Rot) -> (r: Result<(), Blocked>)
        requires
            old(self).wf(),
        ensures
            final(self).wf(),
            rotated_rel(*old(self), *final(self), final_rotation, r),
    {
        proof {
            reveal(rotated_rel);
        }
        let fp = self.falling_piece;
        let kicks = fp.piece.kick_translations(fp.rot, final_rotation);
        let mut i: usize = 0;
        while i < 5
            invariant
                *self == *old(self),
                self.wf(),
                fp == self.falling_spec(),
                i <= 5,
                forall|j: int| 0 <= j < i ==> !kick_ok(*self, final_rotation, j),
                forall|j: int|
                    0 <= j < 5 ==> ((#[trigger] kicks[j]).dx as int, kicks[j].dy as int)
                        == fp.piece.kick_at(fp.rot, final_rotation, j),
            decreases 5 - i,
        {
            match fp.pos.checked_add(kicks[i]) {
                Some(np) => {
                    let candidate = FallingPiece {
                        piece: fp.piece,
                        rot: final_rotation,
                        pos: np,
                        frame_of_last_move: self.frame,
                    };
                    if self.playfield.can_place_piece(fp.piece, final_rotation, np) {
                        let result = self.set_falling_piece(candidate);
                        proof {
                            reveal(rotated_rel);
                            assert(kick_ok(*old(self), final_rotation, i as int));
                        }
                        return result;
                    }
                },
                None => {
                    proof {
                        let k = fp.piece.kick_at(fp.rot, final_rotation, i as int);
                        if self.playfield_spec().can_place_spec(
                            fp.piece,
                            final_rotation,
                            fp.pos.x + k.0,
                            fp.pos.y + k.1,
                        ) {
                            lemma_can_place_anchor(
                                self.playfield_spec(),
                                fp.piece,
                                final_rotation,
                                fp.pos.x + k.0,
                                fp.pos.y + k.1,
                            );
                        }
                    }
                },
            }
            i = i + 1;
        }
        proof {
            reveal(rotated_rel);
        }
        Err(Blocked)
    }

    /// Hard-drops the falling piece to its ghost position and locks it.
    ///
    /// On success returns the old location of the falling piece and the
    /// location it locked at.
    pub fn hard_drop(&mut self) -> (r: Result<[FallingPiece; 2], Blocked>)
        requires
            old(self).wf(),
        ensures
            final(self).wf(),
            hard_drop_rel(*old(self), *final(self), r),
    {
        proof {
            reveal(hard_drop_rel);
        }
        let old_falling_piece = self.falling_piece;
        let ghost_target = self.ghost_piece_pos();
        match ghost_target {
            Some(pos) => {
                self.falling_piece.pos = pos;
            },
            None => {},
        }
        let locked_piece = self.falling_piece;
        let ghost mid = *self;
        match self.lock_falling_piece() {
            Ok(()) => {
                proof {
                    let fp0 = old(self).falling_spec();
                    let gy = locked_piece.pos.y as int;
                    if ghost_target is None {
                        // the lock succeeded, so the unmoved placement was
                        // legal and a ghost position had to exist
                        lemma_can_place_anchor(
                            old(self).playfield_spec(),
                            fp0.piece,
                            fp0.rot,
                            fp0.pos.x as int,
                            fp0.pos.y as int,
                        );
                    }
                    assert(locked_into(mid, *self, fp0.piece, fp0.rot, fp0.pos.x as int, gy));
                    assert(locked_into(*old(self), *self, fp0.piece, fp0.rot, fp0.pos.x as int, gy));
                    assert(is_ghost_y(
                        old(self).playfield_spec(),
                        fp0.piece,
                        fp0.rot,
                        fp0.pos.x as int,
                        fp0.pos.y as int,
                        gy,
                    ));
                }
                Ok([old_falling_piece, locked_piece])
            },
            Err(e) => {
                proof {
                    let fp = old(self).falling_spec();
                    if fp.pos.y < 0 && old(self).playfield_spec().can_place_spec(
                        fp.piece,
                        fp.rot,
                        fp.pos.x as int,
                        fp.pos.y as int,
                    ) {
                        lemma_can_place_anchor(
                            old(self).playfield_spec(),
                            fp.piece,
                            fp.rot,
                            fp.pos.x as int,
                            fp.pos.y as int,
                        );
                    }
                }
                Err(e)
            },
        }
    }

    /// Deletes the rows staged by the previous step, highest index first.
    fn apply_pending_clears(&mut self)
        requires
            old(self).wf(),
        ensures
            final(self).wf(),
            final(self).config_spec() == old(self).config_spec(),
            final(self).queue_spec() == old(self).queue_spec(),
            final(self).input_spec() == old(self).input_spec(),
            final(self).frame_spec() == old(self).frame_spec(),
            final(self).falling_spec() == old(self).falling_spec(),
            final(self).held_spec() == old(self).held_spec(),
            final(self).hold_used_spec() == old(self).hold_used_spec(),
            final(self).over_spec() == old(self).over_spec(),
            final(self).rows_pending_spec().len() == 0,
            deleted_rows(
                old(self).playfield_spec(),
                final(self).playfield_spec(),
                old(self).rows_pending_spec(),
            ),
    {
        let ghost pf0 = self.playfield_spec();
        let ghost rows0 = self.rows_pending_spec();
        loop
            invariant_except_break
                self.wf(),
                self.config_spec() == old(self).config_spec(),
                self.queue_spec() == old(self).queue_spec(),
                self.input_spec() == old(self).input_spec(),
                self.frame_spec() == old(self).frame_spec(),
                self.falling_spec() == old(self).falling_spec(),
                self.held_spec() == old(self).held_spec(),
                self.hold_used_spec() == old(self).hold_used_spec(),
                self.over_spec() == old(self).over_spec(),
                self.rows_pending_spec().len() <= rows0.len(),
                self.rows_pending_spec() == rows0.subrange(0, self.rows_pending_spec().len() as int),
                deleted_rows(
                    pf0,
                    self.playfield_spec(),
                    rows0.subrange(self.rows_pending_spec().len() as int, rows0.len() as int),
                ),
            ensures
                self.wf(),
                self.config_spec() == old(self).config_spec(),
                self.queue_spec() == old(self).queue_spec(),
                self.input_spec() == old(self).input_spec(),
                self.frame_spec() == old(self).frame_spec(),
                self.falling_spec() == old(self).falling_spec(),
                self.held_spec() == old(self).held_spec(),
                self.hold_used_spec() == old(self).hold_used_spec(),
                self.over_spec() == old(self).over_spec(),
                self.rows_pending_spec().len() == 0,
                deleted_rows(pf0, self.playfield_spec(), rows0),
            decreases self.rows_pending_spec().len(),
        {
            proof {
                assert(rows0.subrange(0, rows0.len() as int) =~= rows0);
            }
            let ghost pre_pf = self.playfield_spec();
            let ghost pre_rows = self.rows_pending_spec();
            match self.rows_to_clear.pop() {
                Some(row) => {
                    proof {
                        let n = pre_rows.len() as int;
                        assert(pre_rows == rows0.subrange(0, n));
                        assert(row == pre_rows[n - 1]);
                        assert(row == rows0[n - 1]);
                    }
                    self.playfield.delete_row(row);
                    proof {
                        let n = pre_rows.len() as int;
                        assert(deleted_one(pre_pf, self.playfield_spec(), row));
                        assert(rows0.subrange(n - 1, rows0.len() as int) =~= seq![row]
                            + rows0.subrange(n, rows0.len() as int));
                        lemma_deleted_rows_extend(
                            pf0,
                            pre_pf,
                            self.playfield_spec(),
                            rows0.subrange(n, rows0.len() as int),
                            row,
                        );
                        assert(self.rows_pending_spec() =~= rows0.subrange(0, n - 1));
                    }
                },
                None => {
                    break;
                },
            }
        }
    }

    /// Advances the game to the next frame: applies the row clears staged
    /// by the previous step, advances the clock, feeds the button snapshot
    /// through the auto-shift machinery, attempts the requested actions in
    /// a fixed order, and rechecks the game-over condition.
    ///
    /// Fails exactly when the game is already over, leaving it unchanged.
    #[verifier::rlimit(100)]
    pub fn step(&mut self, delta: u64, keys_down: FrameInput) -> (r: Result<FrameOutput, GameOver>)
        requires
            old(self).wf(),
            step_time_ok(*old(self), delta),
        ensures
            final(self).wf(),
            r is Err <==> old(self).over_spec(),
            r is Err ==> *final(self) == *old(self),
            r matches Ok(out) ==> step_rel(*old(self), *final(self), delta, keys_down, out),
    {
        if self.game_over {
            return Err(GameOver);
        }
        // Apply the row clears staged by the previous step, highest first.
        self.apply_pending_clears();

        // Advance the internal clock.
        self.frame = self.frame + delta;

        // Update the input state to obtain the frame's effective requests.
        let actions_requested = self.input_state.update(self.config.das, self.frame, keys_down);

        // Recompute the full-row list and stage it for next-step deletion.
        self.rows_to_clear = self.playfield.full_rows();

        let rows_cleared = if self.rows_to_clear.len() > 0 {
            Some(copy_rows(&self.rows_to_clear))
        } else {
            None
        };

        // Attempt the requested actions, in a fixed order.
        let ghost ga = *self;
        let out = self.run_actions(actions_requested, rows_cleared);
        let ghost g8 = *self;

        // Check for game-over on the resulting position.
        if self.ghost_piece_pos().is_none() {
            self.game_over = true;
        }

        proof {
            lemma_step_rel_intro(
                *old(self),
                ga,
                g8,
                *self,
                delta,
                keys_down,
                actions_requested,
                out,
            );
        }
        Ok(out)
    }

    /// Attempts the requested actions in the fixed order: left, right,
    /// soft drop, hard drop, the three rotations, then hold.
    fn run_actions(&mut self, req: FrameInput, rows_cleared: Option<Vec<i8>>) -> (out: FrameOutput)
        requires
            old(self).wf(),
        ensures
            final(self).wf(),
            actions_rel(*old(self), *final(self), req, out),
            out.rows_cleared == rows_cleared,
    {
        let left_res = if req.left {
            Some(self.move_left())
        } else {
            None
        };
        let ghost g1 = *self;
        let right_res = if req.right {
            Some(self.move_right())
        } else {
            None
        };
        let ghost g2 = *self;
        let soft_res = if req.soft_drop {
            Some(self.soft_drop())
        } else {
            None
        };
        let ghost g3 = *self;
        let mut locked_piece: Option<FallingPiece> = None;
        let hard_res = if req.hard_drop {
            match self.hard_drop() {
                Ok(pieces) => {
                    locked_piece = Some(pieces[1]);
                    Some(Ok(pieces[0]))
                },
                Err(e) => Some(Err(e)),
            }
        } else {
            None
        };
        let ghost g4 = *self;
        let cw_res = if req.rot_cw {
            Some(self.rotate_cw())
        } else {
            None
        };
        let ghost g5 = *self;
        let ccw_res = if req.rot_ccw {
            Some(self.rotate_ccw())
        } else {
            None
        };
        let ghost g6 = *self;
        let r180_res = if req.rot_180 {
            Some(self.rotate_180())
        } else {
            None
        };
        let ghost g7 = *self;
        let hold_res = if req.hold {
            Some(self.hold())
        } else {
            None
        };
        let out = FrameOutput {
            left: left_res,
            right: right_res,
            soft_drop: soft_res,
            hard_drop: hard_res,
            rot_cw: cw_res,
            rot_ccw: ccw_res,
            rot_180: r180_res,
            hold: hold_res,
            locked_piece,
            rows_cleared,
        };
        proof {
            lemma_actions_intro(*old(self), g1, g2, g3, g4, g5, g6, g7, *self, req, out);
        }
        out
    }

    /// Attempts to swap the falling piece with the held piece.
    ///
    /// This fails only if hold was already used on the current piece.
    pub fn hold(&mut self) -> (r: Result<(), HoldUsed>)
        requires
            old(self).wf(),
        ensures
            final(self).wf(),
            hold_rel(*old(self), *final(self), r),
    {
        proof {
            reveal(hold_rel);
        }
        if self.hold_used {
            return Err(HoldUsed);
        }
        self.hold_used = true;
        let falling_kind = self.falling_piece.piece;
        let new_falling_piece = match self.held_piece {
            Some(k) => {
                self.held_piece = Some(falling_kind);
                k
            },
            None => {
                self.held_piece = Some(falling_kind);
                self.queue.pop_piece()
            },
        };
        self.init_falling_piece(new_falling_piece);
        Ok(())
    }
}

} // verus!
