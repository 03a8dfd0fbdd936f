//! A deliberately small stack model.
//!
//! The tick machine only needs a narrow interface from the stack: spawn a
//! piece, test and apply shifts and rotations, project a sonic drop, commit
//! a lock, inject garbage rows, and manage the preview queue and the hold
//! slot. This model keeps that interface while making the geometry as small
//! as it can be: every piece occupies a single cell of a 10-column,
//! 20-row field, so collision is a one-cell test, a unit cell is
//! rotation-invariant (rotation always succeeds in place and never yields a
//! spin), and a lock can complete at most the one row it lands in.
//!
//! Rows are stored bottom-up: `rows[0]` is the floor row, `rows[19]` the
//! top. Bit `x` of a row marks column `x` as filled; bits 10 and above stay
//! clear.

use vstd::prelude::*;
use vstd::pervasive::VecAdditionalExecFns;
use crate::rng::{draw_below, rng_state, uniform_draw};

verus! {

/// The seven piece identities. Geometry is out of this library's scope, so
/// the kind only tags a piece; every kind occupies a single cell here.
#[derive(Copy, Clone, Debug, Hash, PartialEq, Eq, Structural)]
pub enum PieceKind {
    I,
    O,
    T,
    L,
    J,
    S,
    Z,
}

/// Spin classification reported after a rotation. A unit cell cannot kick,
/// so this model only ever reports `NoSpin`; the scheduler still branches on
/// it, as it must for any richer geometry.
#[derive(Copy, Clone, Debug, PartialEq, Eq, Structural)]
pub enum TspinStatus {
    NoSpin,
    Mini,
    Full,
}

/// The currently controlled piece: its kind, its cell, and the spin state
/// of its last rotation.
#[derive(Copy, Clone, Debug, PartialEq, Eq, Structural)]
pub struct FallingPiece {
    pub kind: PieceKind,
    pub x: i32,
    pub y: i32,
    pub tspin: TspinStatus,
}

/// What committing a piece did to the stack.
#[derive(Clone, Debug, PartialEq, Eq)]
pub struct LockResult {
    /// Rows completed by this lock, bottom-up.
    pub cleared_lines: Vec<i32>,
    /// The piece locked in the top row without completing it: a top-out.
    pub locked_out: bool,
    /// Attack produced by this lock: one row per line cleared.
    pub garbage_sent: u32,
}

pub struct Board {
    pub rows: Vec<u16>,
    pub queue: Vec<PieceKind>,
    pub hold_piece: Option<PieceKind>,
}

/// The piece kind a raw draw in `[0, 7)` stands for.
pub open spec fn kind_of(i: int) -> PieceKind {
    if i == 0 {
        PieceKind::I
    } else if i == 1 {
        PieceKind::O
    } else if i == 2 {
        PieceKind::T
    } else if i == 3 {
        PieceKind::L
    } else if i == 4 {
        PieceKind::J
    } else if i == 5 {
        PieceKind::S
    } else {
        PieceKind::Z
    }
}

/// Column `x` of a row is filled.
pub open spec fn cell(row: u16, x: int) -> bool {
    row & (1u16 << (x as u16)) != 0
}

/// A garbage row: every column filled except `col`.
pub open spec fn garbage_row(col: int) -> u16 {
    1023u16 ^ (1u16 << (col as u16))
}

/// The row a piece in column `x`, row `y` comes to rest in when dropped.
pub open spec fn drop_row(rows: Seq<u16>, x: int, y: int) -> int
    decreases y,
{
    if y <= 0 || cell(rows[y - 1], x) {
        y
    } else {
        drop_row(rows, x, y - 1)
    }
}

/// The piece rests on the floor or on a filled cell.
pub open spec fn resting(rows: Seq<u16>, x: int, y: int) -> bool {
    y <= 0 || cell(rows[y - 1], x)
}

/// A dropped piece comes to rest at its projection: no row strictly between
/// the projection and the start is a resting row, and the projection is one.
pub proof fn lemma_drop_row_props(rows: Seq<u16>, x: int, y: int)
    requires
        0 <= y,
    ensures
        ({
            let r = drop_row(rows, x, y);
            &&& 0 <= r <= y
            &&& resting(rows, x, r)
            &&& forall|y2: int| r < y2 <= y ==> !resting(rows, x, y2)
        }),
    decreases y,
{
    if y <= 0 || cell(rows[y - 1], x) {
    } else {
        lemma_drop_row_props(rows, x, y - 1);
    }
}

impl FallingPiece {
    /// The piece's cell lies on the field.
    pub open spec fn wf(self) -> bool {
        0 <= self.x < 10 && 0 <= self.y < 20
    }
}

impl Board {
    /// Every row exists and keeps its six high bits clear.
    pub open spec fn wf(self) -> bool {
        self.rows@.len() == 20 && forall|i: int| 0 <= i < 20 ==> self.rows@[i] <= 1023
    }

    /// An empty field with an empty queue and an empty hold slot.
    pub fn new() -> (b: Board)
        ensures
            b.wf(),
            b.rows@ =~= Seq::new(20, |i: int| 0u16),
            b.queue@ =~= Seq::<PieceKind>::empty(),
            b.hold_piece is None,
    {
        let mut rows: Vec<u16> = Vec::new();
        let mut i: usize = 0;
        while i < 20
            invariant
                i <= 20,
                rows@.len() == i,
                forall|j: int| 0 <= j < i ==> rows@[j] == 0u16,
            decreases 20 - i,
        {
            rows.push(0);
            i += 1;
        }
        let b = Board { rows, queue: Vec::new(), hold_piece: None };
        assert(b.rows@ =~= Seq::new(20, |i: int| 0u16));
        b
    }

    /// Column `x` of row `y` is filled.
    pub fn occupied(&self, x: i32, y: i32) -> (r: bool)
        requires
            self.wf(),
            0 <= x < 10,
            0 <= y < 20,
        ensures
            r == cell(self.rows@[y as int], x as int),
    {
        self.rows[y as usize] & (1u16 << (x as u16)) != 0
    }

    /// Draw the next piece kind for the preview queue. The draw consumes one
    /// uniform sample; the board itself is not touched.
    pub fn generate_next_piece(&self, rng: &mut rand_pcg::Pcg64Mcg) -> (p: PieceKind)
        ensures
            p == kind_of(uniform_draw(rng_state(*old(rng)), 7).0),
            rng_state(*final(rng)) == uniform_draw(rng_state(*old(rng)), 7).1,
    {
        let i = draw_below(rng, 7);
        if i == 0 {
            PieceKind::I
        } else if i == 1 {
            PieceKind::O
        } else if i == 2 {
            PieceKind::T
        } else if i == 3 {
            PieceKind::L
        } else if i == 4 {
            PieceKind::J
        } else if i == 5 {
            PieceKind::S
        } else {
            PieceKind::Z
        }
    }

    /// Append a piece to the back of the preview queue.
    pub fn add_next_piece(&mut self, p: PieceKind)
        ensures
            final(self).rows == old(self).rows,
            final(self).hold_piece == old(self).hold_piece,
            final(self).queue@ == old(self).queue@.push(p),
    {
        self.queue.push(p);
    }

    /// Take the front of the preview queue, if the queue holds anything.
    pub fn advance_queue(&mut self) -> (p: Option<PieceKind>)
        ensures
            final(self).rows == old(self).rows,
            final(self).hold_piece == old(self).hold_piece,
            old(self).queue@.len() == 0 ==> p is None && final(self).queue == old(self).queue,
            old(self).queue@.len() > 0 ==> p == Some(old(self).queue@[0]) && final(self).queue@
                == old(self).queue@.skip(1),
    {
        if self.queue.len() == 0 {
            None
        } else {
            let p = self.queue.remove(0);
            assert(final(self).queue@ =~= old(self).queue@.skip(1));
            Some(p)
        }
    }

    /// Put a piece into the hold slot and hand back what was there.
    pub fn hold(&mut self, k: PieceKind) -> (prev: Option<PieceKind>)
        ensures
            final(self).rows == old(self).rows,
            final(self).queue == old(self).queue,
            final(self).hold_piece == Some(k),
            prev == old(self).hold_piece,
    {
        let prev = self.hold_piece;
        self.hold_piece = Some(k);
        prev
    }

    /// The piece rests on the floor or on the stack.
    pub fn on_stack(&self, p: &FallingPiece) -> (r: bool)
        requires
            self.wf(),
            p.wf(),
        ensures
            r == resting(self.rows@, p.x as int, p.y as int),
    {
        p.y == 0 || self.occupied(p.x, p.y - 1)
    }

    /// Commit a piece to the stack: fill its cell, clear the row if that
    /// completed it, and report a top-out when the piece locked in the top
    /// row without completing it.
    pub fn lock_piece(&mut self, piece: FallingPiece) -> (r: LockResult)
        requires
            old(self).wf(),
            piece.wf(),
        ensures
            final(self).wf(),
            final(self).queue == old(self).queue,
            final(self).hold_piece == old(self).hold_piece,
            ({
                let y = piece.y as int;
                let filled = old(self).rows@[y] | (1u16 << (piece.x as u16));
                if filled == 1023 {
                    final(self).rows@ == old(self).rows@.remove(y).push(0u16)
                        && r.cleared_lines@ == seq![piece.y] && r.garbage_sent == 1
                        && !r.locked_out
                } else {
                    final(self).rows@ == old(self).rows@.update(y, filled)
                        && r.cleared_lines@ == Seq::<i32>::empty() && r.garbage_sent == 0
                        && r.locked_out == (piece.y == 19)
                }
            }),
    {
        let y = piece.y as usize;
        let filled: u16 = self.rows[y] | (1u16 << (piece.x as u16));
        proof {
            let row = self.rows@[y as int];
            let px = piece.x;
            assert((row | (1u16 << (px as u16))) <= 1023) by (bit_vector)
                requires
                    row <= 1023,
                    px < 10,
                    0 <= px,
            ;
        }
        if filled == 1023 {
            self.rows.remove(y);
            self.rows.push(0);
            let mut cleared: Vec<i32> = Vec::new();
            cleared.push(piece.y);
            LockResult { cleared_lines: cleared, locked_out: false, garbage_sent: 1 }
        } else {
            self.rows.set(y, filled);
            LockResult {
                cleared_lines: Vec::new(),
                locked_out: piece.y == 19,
                garbage_sent: 0,
            }
        }
    }

    /// Push a garbage row in from the bottom: every column but `col` filled.
    /// The old top row is pushed out; the player dies if it held anything.
    pub fn add_garbage(&mut self, col: usize) -> (died: bool)
        requires
            old(self).wf(),
            col < 10,
        ensures
            final(self).wf(),
            final(self).queue == old(self).queue,
            final(self).hold_piece == old(self).hold_piece,
            final(self).rows@ == seq![garbage_row(col as int)] + old(self).rows@.subrange(0, 19),
            died == (old(self).rows@[19] != 0),
    {
        proof {
            assert((1023u16 ^ (1u16 << (col as u16))) <= 1023) by (bit_vector)
                requires
                    col < 10,
            ;
        }
        let g: u16 = 1023u16 ^ (1u16 << (col as u16));
        self.rows.insert(0, g);
        let top = match self.rows.pop() {
            Some(t) => t,
            None => 0,
        };
        assert(final(self).rows@ =~= seq![garbage_row(col as int)] + old(self).rows@.subrange(
            0,
            19,
        ));
        top != 0
    }
}

impl FallingPiece {
    /// Try to place a fresh piece at the spawn cell, column 4 of the top
    /// row. Fails exactly when that cell is already filled.
    pub fn spawn(kind: PieceKind, board: &Board) -> (p: Option<FallingPiece>)
        requires
            board.wf(),
        ensures
            cell(board.rows@[19], 4) ==> p is None,
            !cell(board.rows@[19], 4) ==> p == Some(
                FallingPiece { kind, x: 4, y: 19, tspin: TspinStatus::NoSpin },
            ),
    {
        if board.occupied(4, 19) {
            None
        } else {
            Some(FallingPiece { kind, x: 4, y: 19, tspin: TspinStatus::NoSpin })
        }
    }

    /// Attempt a clockwise rotation. A unit cell is rotation-invariant, so
    /// the rotation always succeeds without moving and without a spin.
    pub fn cw(&mut self, board: &Board) -> (r: bool)
        ensures
            r,
            *final(self) == *old(self),
    {
        let _ = board;
        true
    }

    /// Attempt a counter-clockwise rotation; as `cw`.
    pub fn ccw(&mut self, board: &Board) -> (r: bool)
        ensures
            r,
            *final(self) == *old(self),
    {
        let _ = board;
        true
    }

    /// Attempt a one-cell shift. Succeeds exactly when the target cell lies
    /// on the field and is empty.
    pub fn shift(&mut self, board: &Board, dx: i32, dy: i32) -> (r: bool)
        requires
            board.wf(),
            old(self).wf(),
            -1 <= dx <= 1,
            -1 <= dy <= 0,
        ensures
            final(self).wf(),
            ({
                let nx = old(self).x + dx;
                let ny = old(self).y + dy;
                if 0 <= nx < 10 && 0 <= ny < 20 && !cell(board.rows@[ny], nx) {
                    r && *final(self) == (FallingPiece { x: nx as i32, y: ny as i32, ..*old(self) })
                } else {
                    !r && *final(self) == *old(self)
                }
            }),
    {
        let nx = self.x + dx;
        let ny = self.y + dy;
        if 0 <= nx && nx < 10 && 0 <= ny && ny < 20 && !board.occupied(nx, ny) {
            self.x = nx;
            self.y = ny;
            true
        } else {
            false
        }
    }

    /// Project the piece straight down to its resting row.
    pub fn sonic_drop(&mut self, board: &Board)
        requires
            board.wf(),
            old(self).wf(),
        ensures
            final(self).wf(),
            *final(self) == (FallingPiece {
                y: drop_row(board.rows@, old(self).x as int, old(self).y as int) as i32,
                ..*old(self)
            }),
            final(self).y <= old(self).y,
            resting(board.rows@, final(self).x as int, final(self).y as int),
    {
        while self.y > 0 && !board.occupied(self.x, self.y - 1)
            invariant
                board.wf(),
                self.wf(),
                self.x == old(self).x,
                self.kind == old(self).kind,
                self.tspin == old(self).tspin,
                self.y <= old(self).y,
                drop_row(board.rows@, self.x as int, self.y as int) == drop_row(
                    board.rows@,
                    old(self).x as int,
                    old(self).y as int,
                ),
            decreases self.y,
        {
            self.y = self.y - 1;
        }
    }
}

} // verus!
