//! The single-player tick state machine.
//!
//! `Game::update` advances the state by one tick: it runs input
//! edge-detection and delayed auto-shift, then the four-state lifecycle
//! (spawn delay, falling, line-clear delay, game over), locking pieces and
//! reconciling garbage. Every event of a tick is handed back to the caller
//! in the exact order it arose.

use vstd::prelude::*;
use crate::board::{
    cell, drop_row, garbage_row, kind_of, resting, Board, FallingPiece, LockResult, PieceKind,
    TspinStatus,
};
use crate::controller::Controller;
use crate::rng::{draw_below, draw_ratio, ratio_draw, rng_state, uniform_draw};

verus! {

/// Static timing parameters, in ticks, fixed for a whole game.
#[derive(Copy, Clone, Debug, Hash, PartialEq, Eq)]
pub struct GameConfig {
    pub spawn_delay: u32,
    pub line_clear_delay: u32,
    pub delayed_auto_shift: u32,
    pub auto_repeat_rate: u32,
    pub soft_drop_speed: u32,
    /// Ticks per cell of natural fall, in hundredths of a tick.
    pub gravity: i32,
    pub next_queue_size: u32,
    /// Ticks until the attack multiplier starts to ramp, if any.
    pub margin_time: Option<u32>,
    /// Cap on garbage rows injected in one tick.
    pub max_garbage_add: u32,
}

impl GameConfig {
    /// The configurations the simulation is defined for: the preview queue
    /// holds at least one piece (a spawn draws from it), gravity is positive
    /// (the fall accumulator pays it back a hundredth of a tick at a time),
    /// and the soft-drop comparison stays within machine range.
    pub open spec fn wf(self) -> bool {
        &&& self.next_queue_size >= 1
        &&& self.gravity >= 1
        &&& self.soft_drop_speed <= 21474836
    }
}

impl Default for GameConfig {
    /// Timings approximating a common commercial ruleset.
    fn default() -> (c: GameConfig)
        ensures
            c.wf(),
            c == (GameConfig {
                spawn_delay: 7,
                line_clear_delay: 45,
                delayed_auto_shift: 12,
                auto_repeat_rate: 1,
                soft_drop_speed: 1,
                gravity: 4500,
                next_queue_size: 5,
                margin_time: Some(18000u32),
                max_garbage_add: 10,
            }),
    {
        GameConfig {
            spawn_delay: 7,
            line_clear_delay: 45,
            delayed_auto_shift: 12,
            auto_repeat_rate: 1,
            soft_drop_speed: 1,
            gravity: 4500,
            next_queue_size: 5,
            margin_time: Some(18000),
            max_garbage_add: 10,
        }
    }
}

/// What the simulation reports to its caller, tick by tick. The list of a
/// tick is returned, never retained.
#[derive(Clone, Debug, PartialEq, Eq)]
pub enum Event {
    PieceSpawned { new_in_queue: PieceKind },
    SpawnDelayStart,
    PieceMoved,
    PieceRotated,
    PieceTSpined,
    PieceHeld(PieceKind),
    StackTouched,
    SoftDropped,
    PieceFalling(FallingPiece, FallingPiece),
    EndOfLineClearDelay,
    PiecePlaced { piece: FallingPiece, locked: LockResult, hard_drop_distance: Option<i32> },
    GarbageSent(u32),
    GarbageAdded(Vec<usize>),
    GameOver,
}

/// The currently controlled piece and its timing bookkeeping.
#[derive(Copy, Clone, Debug, PartialEq, Eq, Structural)]
pub struct FallingState {
    pub piece: FallingPiece,
    /// The lowest row the piece has ever occupied, for the move-reset rule.
    pub lowest_y: i32,
    /// Rotations and shifts since the piece last reached a new lowest row,
    /// saturating at the move limit (only the threshold is ever read).
    pub rotation_move_count: u32,
    /// Fall accumulator, hundredths of a tick still owed before a cell drop.
    pub gravity: i32,
    pub lock_delay: u32,
    pub soft_drop_delay: u32,
}

/// Exactly one lifecycle stage is active at a time.
#[derive(Copy, Clone, Debug, PartialEq, Eq, Structural)]
pub enum GameState {
    SpawnDelay(u32),
    LineClearDelay(u32),
    Falling(FallingState),
    GameOver,
}

pub struct Game {
    pub board: Board,
    pub state: GameState,
    pub config: GameConfig,
    /// Hold already consumed during this piece's lifetime.
    pub did_hold: bool,
    /// Raw button snapshot of the previous tick.
    pub prev: Controller,
    /// Edge-triggered "fresh press" flags, cleared as the machine consumes
    /// them.
    pub used: Controller,
    /// Delayed auto-shift countdown.
    pub das_delay: u32,
    /// Incoming garbage rows not yet injected.
    pub garbage_queue: u32,
    /// Outgoing attack accumulated for the lock being resolved.
    pub attacking: u32,
}

/// One button's edge flag after a tick: releasing clears it, a fresh press
/// sets it, and holding leaves whatever the machine has not yet consumed.
pub open spec fn used_after(used: bool, prev: bool, current: bool) -> bool {
    if !current {
        false
    } else if !prev {
        true
    } else {
        used
    }
}

/// Update one button's edge flag in place.
pub fn update_input(used: &mut bool, prev: bool, current: bool)
    ensures
        *final(used) == used_after(*old(used), prev, current),
{
    if !current {
        *used = false;
    } else if !prev {
        *used = true;
    }
}

/// The edge flags and the auto-shift countdown after the input phase of a
/// tick, before the state machine consumes anything.
pub open spec fn input_phase(used: Controller, prev: Controller, current: Controller, das: u32, config: GameConfig) -> (Controller, int) {
    let u = Controller {
        left: used_after(used.left, prev.left, current.left),
        right: used_after(used.right, prev.right, current.right),
        rotate_right: used_after(used.rotate_right, prev.rotate_right, current.rotate_right),
        rotate_left: used_after(used.rotate_left, prev.rotate_left, current.rotate_left),
        hold: used_after(used.hold, prev.hold, current.hold),
        hard_drop: !prev.hard_drop && current.hard_drop,
        soft_drop: current.soft_drop,
    };
    if current.left != current.right && prev.left == current.left {
        if u.left || u.right {
            if das > config.auto_repeat_rate {
                (u, das - 1)
            } else {
                (u, das as int)
            }
        } else if das == 0 {
            (Controller { left: current.left, right: current.right, ..u }, config.auto_repeat_rate as int)
        } else {
            (u, das - 1)
        }
    } else {
        (u, config.delayed_auto_shift as int)
    }
}

/// Symmetric cancellation of outgoing attack against queued garbage: the
/// smaller of the two is absorbed by the larger and zeroed.
pub open spec fn reconcile_spec(attacking: u32, queue: u32) -> (u32, u32) {
    if attacking > queue {
        ((attacking - queue) as u32, 0u32)
    } else {
        (0u32, (queue - attacking) as u32)
    }
}

/// Cancel outgoing attack against queued garbage.
pub fn reconcile(attacking: u32, queue: u32) -> (r: (u32, u32))
    ensures
        r == reconcile_spec(attacking, queue),
{
    if attacking > queue {
        (attacking - queue, 0)
    } else {
        (0, queue - attacking)
    }
}

/// Cancellation absorbs exactly the smaller amount from each side: at most
/// one side stays positive, and each side loses exactly the overlap.
pub proof fn lemma_reconcile_cancels(attacking: u32, queue: u32)
    ensures
        ({
            let (a, q) = reconcile_spec(attacking, queue);
            let overlap = if attacking <= queue { attacking as int } else { queue as int };
            &&& a == attacking - overlap
            &&& q == queue - overlap
            &&& a == 0 || q == 0
        }),
{
}

/// The garbage columns drawn after an initial column, walking the stream:
/// each row keeps the previous column unless a one-in-three draw asks for a
/// fresh sample.
pub open spec fn garbage_walk(s: int, col: usize, n: nat) -> (Seq<usize>, int)
    decreases n,
{
    if n == 0 {
        (Seq::empty(), s)
    } else {
        let (fresh, s1) = ratio_draw(s, 1, 3);
        let (col2, s2) = if fresh {
            let d = uniform_draw(s1, 10);
            (d.0 as usize, d.1)
        } else {
            (col, s1)
        };
        let (rest, s3) = garbage_walk(s2, col2, (n - 1) as nat);
        (seq![col2] + rest, s3)
    }
}

/// The column sequence of a garbage injection of `n` rows, starting from a
/// freshly drawn column.
pub open spec fn garbage_cols(s: int, n: nat) -> (Seq<usize>, int) {
    let d = uniform_draw(s, 10);
    garbage_walk(d.1, d.0 as usize, n)
}

/// Every recorded garbage column lies on the field.
pub open spec fn cols_in_range(cols: Seq<usize>) -> bool {
    forall|j: int| 0 <= j < cols.len() ==> cols[j] < 10
}

/// Rows and death flag after injecting garbage rows with the given columns,
/// bottom first.
pub open spec fn inject(rows: Seq<u16>, cols: Seq<usize>) -> (Seq<u16>, bool)
    decreases cols.len(),
{
    if cols.len() == 0 {
        (rows, false)
    } else {
        let r1 = seq![garbage_row(cols[0] as int)] + rows.subrange(0, 19);
        let died1 = rows[19] != 0;
        let (r2, died2) = inject(r1, cols.skip(1));
        (r2, died1 || died2)
    }
}

/// Injecting one more row acts on the result of the earlier rows.
pub proof fn lemma_inject_push(rows: Seq<u16>, cols: Seq<usize>, c: usize)
    requires
        rows.len() == 20,
    ensures
        ({
            let (r1, d1) = inject(rows, cols);
            let (r2, d2) = inject(rows, cols.push(c));
            &&& r1.len() == 20
            &&& r2 == seq![garbage_row(c as int)] + r1.subrange(0, 19)
            &&& d2 == (d1 || r1[19] != 0)
        }),
    decreases cols.len(),
{
    if cols.len() == 0 {
        let single = cols.push(c);
        assert(single[0] == c);
        assert(single.skip(1) =~= Seq::<usize>::empty());
        let r1 = seq![garbage_row(c as int)] + rows.subrange(0, 19);
        assert(inject(r1, single.skip(1)) == (r1, false));
        assert(inject(rows, single).0 =~= r1);
        assert(inject(rows, cols).0 =~= rows);
        assert(rows.subrange(0, 19) =~= inject(rows, cols).0.subrange(0, 19));
    } else {
        let head = seq![garbage_row(cols[0] as int)] + rows.subrange(0, 19);
        assert(head.len() == 20);
        assert(cols.push(c)[0] == cols[0]);
        assert(cols.push(c).skip(1) =~= cols.skip(1).push(c));
        lemma_inject_push(head, cols.skip(1), c);
    }
}

/// The pieces drawn to refill a preview queue: `n` uniform draws mapped to
/// kinds, oldest first.
pub open spec fn gen_queue(s: int, n: nat) -> (Seq<PieceKind>, int)
    decreases n,
{
    if n == 0 {
        (Seq::empty(), s)
    } else {
        let (q, s1) = gen_queue(s, (n - 1) as nat);
        let d = uniform_draw(s1, 7);
        (q.push(kind_of(d.0)), d.1)
    }
}

/// How many cells of fall the accumulator owes once a tick's hundredths are
/// charged: the number of times a whole gravity period fits into the debt.
pub open spec fn grav_iters(acc: int, g: int) -> int
    decreases (if acc < 0 { 0 - acc } else { 0 }) when g >= 1
{
    if acc >= 0 {
        0
    } else {
        1 + grav_iters(acc + g, g)
    }
}

/// Everything one tick of `Game::update` guarantees, as a relation between
/// the game and generator before the tick, the tick's input, the game and
/// generator after it, and the events handed back. `Game::update` ensures
/// exactly this relation; `Battle::update` states each player's evolution
/// through it.
pub open spec fn update_rel(
    pre: Game,
    current: Controller,
    r_pre: rand_pcg::Pcg64Mcg,
    post: Game,
    r_post: rand_pcg::Pcg64Mcg,
    events: Seq<Event>,
) -> bool {
    &&& post.config == pre.config
    &&& post.prev == current
    &&& post.das_delay as int == input_phase(
        pre.used,
        pre.prev,
        current,
        pre.das_delay,
        pre.config,
    ).1
    &&& match pre.state {
        // A finished game stays finished and keeps announcing it.
        GameState::GameOver => ({
                let u = input_phase(pre.used, pre.prev, current, pre.das_delay, pre.config).0;
                &&& post.state == GameState::GameOver
                &&& post.board == pre.board
                &&& post.used == u
                &&& post.did_hold == pre.did_hold
                &&& post.garbage_queue == pre.garbage_queue
                &&& post.attacking == pre.attacking
                &&& r_post == r_pre
                &&& events == seq![Event::GameOver]
            }),
        // Waiting for a spawn merely counts down, announcing the start;
        // the spawn tick pops the queue, refills it with a fresh draw, and
        // either starts a piece falling or ends the game.
        GameState::SpawnDelay(n) => if n > 0 {
            ({
                let u = input_phase(pre.used, pre.prev, current, pre.das_delay, pre.config).0;
                &&& post.state == GameState::SpawnDelay((n - 1) as u32)
                &&& post.board == pre.board
                &&& post.used == u
                &&& post.did_hold == pre.did_hold
                &&& post.garbage_queue == pre.garbage_queue
                &&& post.attacking == pre.attacking
                &&& r_post == r_pre
                &&& events == (if n == pre.config.spawn_delay {
                    seq![Event::SpawnDelayStart]
                } else {
                    Seq::<Event>::empty()
                })
            })
        } else {
            ({
                let u = input_phase(pre.used, pre.prev, current, pre.das_delay, pre.config).0;
                let d0 = uniform_draw(rng_state(r_pre), 7);
                let k = kind_of(d0.0);
                &&& post.board.queue@ == pre.board.queue@.skip(1).push(k)
                &&& rng_state(r_post) == d0.1
                &&& post.board.rows@ == pre.board.rows@
                &&& post.board.hold_piece == pre.board.hold_piece
                &&& post.used == u
                &&& post.did_hold == pre.did_hold
                &&& post.garbage_queue == pre.garbage_queue
                &&& post.attacking == pre.attacking
                &&& if cell(pre.board.rows@[19], 4) {
                    post.state == GameState::GameOver && events == seq![Event::GameOver]
                } else {
                    let spawned = (FallingPiece {
                        kind: pre.board.queue@[0],
                        x: 4,
                        y: 19,
                        tspin: TspinStatus::NoSpin,
                    });
                    let rest = drop_row(pre.board.rows@, 4, 19);
                    &&& post.state == GameState::Falling(
                        FallingState {
                            piece: spawned,
                            lowest_y: 19,
                            rotation_move_count: 0,
                            gravity: pre.config.gravity,
                            lock_delay: 30,
                            soft_drop_delay: 0,
                        },
                    )
                    &&& events == seq![
                        Event::PieceSpawned { new_in_queue: k },
                        Event::PieceFalling(spawned, (FallingPiece { y: rest as i32, ..spawned })),
                    ]
                }
            })
        },
        // The line-clear delay counts down silently; the tick it expires,
        // garbage is reconciled at once and the spawn delay begins.
        GameState::LineClearDelay(n) => if n > 0 {
            ({
                let u = input_phase(pre.used, pre.prev, current, pre.das_delay, pre.config).0;
                &&& post.state == GameState::LineClearDelay((n - 1) as u32)
                &&& post.board == pre.board
                &&& post.used == u
                &&& post.garbage_queue == pre.garbage_queue
                &&& post.attacking == pre.attacking
                &&& r_post == r_pre
                &&& events == Seq::<Event>::empty()
            })
        } else {
            ({
                let (atk, q) = reconcile_spec(pre.attacking, pre.garbage_queue);
                let cap = pre.config.max_garbage_add;
                let n = if q <= cap { q } else { cap };
                &&& events.len() >= 1
                &&& events[0] == Event::EndOfLineClearDelay
                &&& post.attacking == 0
                &&& if q > 0 {
                    let (cols, s1) = garbage_cols(rng_state(r_pre), n as nat);
                    let (rows2, died) = inject(pre.board.rows@, cols);
                    &&& rng_state(r_post) == s1
                    &&& post.board.rows@ == rows2
                    &&& post.garbage_queue == q - n
                    &&& post.state == (if died {
                        GameState::GameOver
                    } else {
                        GameState::SpawnDelay(pre.config.spawn_delay)
                    })
                    &&& events.len() == (if died { 3int } else { 2int })
                    &&& (events[1] matches Event::GarbageAdded(v) && v@ == cols)
                    &&& cols_in_range(cols)
                    &&& (died ==> events.last() == Event::GameOver)
                } else {
                    &&& r_post == r_pre
                    &&& post.board.rows@ == pre.board.rows@
                    &&& post.state == GameState::SpawnDelay(pre.config.spawn_delay)
                    &&& post.garbage_queue == 0
                    &&& (atk > 0 ==> events == seq![
                        Event::EndOfLineClearDelay,
                        Event::GarbageSent(atk),
                    ])
                    &&& (atk == 0 ==> events == seq![Event::EndOfLineClearDelay])
                }
            })
        },
        // A falling piece: the move-reset lock, the recorded hard drop,
        // pure gravity, hold, and the resting lock-delay countdown, each
        // under the edge flags that select it.
        GameState::Falling(f) => ({
                &&& (({
                    let u = input_phase(pre.used, pre.prev, current, pre.das_delay, pre.config).0;
                    &&& !(u.hold && !pre.did_hold)
                    &&& !u.rotate_right
                    &&& !u.rotate_left
                    &&& !u.left
                    &&& !u.right
                    &&& f.rotation_move_count >= 15
                    &&& f.piece.y >= f.lowest_y
                    &&& drop_row(pre.board.rows@, f.piece.x as int, f.piece.y as int)
                        >= f.lowest_y
                }) ==> !(post.state is Falling))
                &&& (({
                    let u = input_phase(pre.used, pre.prev, current, pre.das_delay, pre.config).0;
                    &&& !(u.hold && !pre.did_hold)
                    &&& !u.rotate_right
                    &&& !u.rotate_left
                    &&& !u.left
                    &&& !u.right
                    &&& u.hard_drop
                    &&& f.rotation_move_count < 15
                }) ==> ({
                    let rest = drop_row(pre.board.rows@, f.piece.x as int, f.piece.y as int);
                    &&& !(post.state is Falling)
                    &&& events.len() >= 1
                    &&& (events[0] matches Event::PiecePlaced { piece, locked, hard_drop_distance }
                        && piece == (FallingPiece { y: rest as i32, ..f.piece })
                        && hard_drop_distance == Some((f.piece.y - rest) as i32))
                }))
                &&& (({
                    let u = input_phase(pre.used, pre.prev, current, pre.das_delay, pre.config).0;
                    &&& !(u.hold && !pre.did_hold)
                    &&& !u.rotate_right
                    &&& !u.rotate_left
                    &&& !u.left
                    &&& !u.right
                    &&& !u.hard_drop
                    &&& !u.soft_drop
                    &&& f.rotation_move_count < 15
                    &&& !resting(pre.board.rows@, f.piece.x as int, f.piece.y as int)
                }) ==> ({
                    let g = pre.config.gravity as int;
                    let steps = grav_iters(f.gravity - 100, g);
                    let rest = drop_row(pre.board.rows@, f.piece.x as int, f.piece.y as int);
                    let ny = if f.piece.y - steps >= rest {
                        f.piece.y - steps
                    } else {
                        rest
                    };
                    &&& (post.state matches GameState::Falling(f2)
                        && f2.piece == (FallingPiece { y: ny as i32, ..f.piece })
                        && f2.gravity == f.gravity - 100 + steps * g
                        && f2.lock_delay == 30)
                    &&& events == ({
                        let snapshot = Event::PieceFalling(
                            (FallingPiece { y: ny as i32, ..f.piece }),
                            (FallingPiece {
                                y: drop_row(pre.board.rows@, f.piece.x as int, ny) as i32,
                                ..f.piece
                            }),
                        );
                        if resting(pre.board.rows@, f.piece.x as int, ny) {
                            Seq::<Event>::empty().push(Event::StackTouched).push(snapshot)
                        } else {
                            Seq::<Event>::empty().push(snapshot)
                        }
                    })
                }))
                &&& (({
                    let u = input_phase(pre.used, pre.prev, current, pre.das_delay, pre.config).0;
                    u.hold && !pre.did_hold
                }) ==> ({
                    let held_kind = f.piece.kind;
                    &&& post.did_hold
                    &&& post.board.hold_piece == Some(held_kind)
                    &&& post.board.rows@ == pre.board.rows@
                    &&& post.board.queue == pre.board.queue
                    &&& post.garbage_queue == pre.garbage_queue
                    &&& post.attacking == pre.attacking
                    &&& r_post == r_pre
                    &&& events.len() >= 1
                    &&& events[0] == Event::PieceHeld(held_kind)
                    &&& match pre.board.hold_piece {
                        None => post.state == GameState::SpawnDelay(
                            pre.config.spawn_delay,
                        ) && events == seq![Event::PieceHeld(held_kind)],
                        Some(k) => {
                            if cell(pre.board.rows@[19], 4) {
                                post.state == GameState::GameOver && events == seq![
                                    Event::PieceHeld(held_kind),
                                    Event::GameOver,
                                ]
                            } else {
                                let spawned = (FallingPiece {
                                    kind: k,
                                    x: 4,
                                    y: 19,
                                    tspin: TspinStatus::NoSpin,
                                });
                                let rest = drop_row(pre.board.rows@, 4, 19);
                                post.state == GameState::Falling(
                                    FallingState {
                                        piece: spawned,
                                        lowest_y: 19,
                                        rotation_move_count: 0,
                                        gravity: pre.config.gravity,
                                        lock_delay: 30,
                                        soft_drop_delay: 0,
                                    },
                                ) && events == seq![
                                    Event::PieceHeld(held_kind),
                                    Event::PieceFalling(
                                        spawned,
                                        (FallingPiece { y: rest as i32, ..spawned }),
                                    ),
                                ]
                            }
                        },
                    }
                }))
                &&& (({
                    let u = input_phase(pre.used, pre.prev, current, pre.das_delay, pre.config).0;
                    &&& !(u.hold && !pre.did_hold)
                    &&& !u.rotate_right
                    &&& !u.rotate_left
                    &&& !u.left
                    &&& !u.right
                    &&& !u.hard_drop
                    &&& f.rotation_move_count < 15
                    &&& resting(pre.board.rows@, f.piece.x as int, f.piece.y as int)
                }) ==> ({
                    if f.lock_delay > 1 {
                        &&& post.state == GameState::Falling(
                            FallingState {
                                lock_delay: (f.lock_delay - 1) as u32,
                                gravity: pre.config.gravity,
                                rotation_move_count: if f.piece.y < f.lowest_y {
                                    0u32
                                } else {
                                    f.rotation_move_count
                                },
                                lowest_y: if f.piece.y < f.lowest_y {
                                    f.piece.y
                                } else {
                                    f.lowest_y
                                },
                                ..f
                            },
                        )
                        &&& events == seq![Event::PieceFalling(f.piece, f.piece)]
                    } else {
                        &&& !(post.state is Falling)
                        &&& events.len() >= 1
                        &&& (events[0] matches Event::PiecePlaced {
                            piece,
                            locked,
                            hard_drop_distance,
                        } && piece == f.piece && hard_drop_distance == Option::<i32>::None)
                    }
                }))
            }),
    }
}

impl Game {
    /// The state a game keeps between ticks: a well-formed board, a preview
    /// queue of the configured length, sane countdowns, and no outgoing
    /// attack pending outside a line-clear delay.
    pub open spec fn wf(self) -> bool {
        &&& self.board.wf()
        &&& self.config.wf()
        &&& self.board.queue@.len() == self.config.next_queue_size
        &&& match self.state {
            GameState::SpawnDelay(n) => n <= self.config.spawn_delay,
            GameState::LineClearDelay(n) => n <= self.config.line_clear_delay,
            GameState::Falling(f) => {
                &&& f.piece.wf()
                &&& f.piece.tspin == TspinStatus::NoSpin
                &&& 1 <= f.lock_delay <= 30
                &&& 0 <= f.gravity <= self.config.gravity
                &&& 0 <= f.lowest_y < 20
                &&& f.rotation_move_count <= 15
                &&& f.soft_drop_delay <= self.config.soft_drop_speed
            },
            GameState::GameOver => true,
        }
        &&& (!(self.state is LineClearDelay) ==> self.attacking == 0)
    }

    /// Start a game: an empty field, a freshly drawn preview queue, and the
    /// configured spawn delay before the first piece appears.
    pub fn new(config: GameConfig, rng: &mut rand_pcg::Pcg64Mcg) -> (g: Game)
        requires
            config.wf(),
        ensures
            g.wf(),
            g.config == config,
            g.state == GameState::SpawnDelay(config.spawn_delay),
            !g.did_hold,
            g.prev == Controller::released(),
            g.used == Controller::released(),
            g.das_delay == config.delayed_auto_shift,
            g.garbage_queue == 0,
            g.attacking == 0,
            g.board.rows@ == Seq::new(20, |i: int| 0u16),
            g.board.hold_piece is None,
            ({
                let (q, s) = gen_queue(rng_state(*old(rng)), config.next_queue_size as nat);
                g.board.queue@ == q && rng_state(*final(rng)) == s
            }),
    {
        let mut board = Board::new();
        let mut i: u32 = 0;
        while i < config.next_queue_size
            invariant
                board.wf(),
                board.hold_piece is None,
                board.rows@ == Seq::new(20, |j: int| 0u16),
                i <= config.next_queue_size,
                board.queue@.len() == i,
                gen_queue(rng_state(*old(rng)), i as nat) == (board.queue@, rng_state(*rng)),
            decreases config.next_queue_size - i,
        {
            let p = board.generate_next_piece(rng);
            board.add_next_piece(p);
            i += 1;
            assert(gen_queue(rng_state(*old(rng)), i as nat) == (
                board.queue@,
                rng_state(*rng),
            ));
        }
        Game {
            board,
            config,
            prev: Controller::default(),
            used: Controller::default(),
            did_hold: false,
            das_delay: config.delayed_auto_shift,
            state: GameState::SpawnDelay(config.spawn_delay),
            garbage_queue: 0,
            attacking: 0,
        }
    }

    /// Reconcile garbage once a lock resolves: cancel outgoing attack
    /// against the queue, inject what remains (up to the per-tick cap) with
    /// the drawn column stream, and otherwise send the surviving attack.
    pub fn deal_garbage(&mut self, events: &mut Vec<Event>, rng: &mut rand_pcg::Pcg64Mcg)
        requires
            old(self).board.wf(),
        ensures
            final(self).board.wf(),
            final(self).config == old(self).config,
            final(self).board.queue == old(self).board.queue,
            final(self).board.hold_piece == old(self).board.hold_piece,
            final(self).did_hold == old(self).did_hold,
            final(self).prev == old(self).prev,
            final(self).used == old(self).used,
            final(self).das_delay == old(self).das_delay,
            final(self).attacking == 0,
            final(events)@.len() >= old(events)@.len(),
            final(events)@.subrange(0, old(events)@.len() as int) == old(events)@,
            ({
                let (atk, q) = reconcile_spec(old(self).attacking, old(self).garbage_queue);
                let cap = old(self).config.max_garbage_add;
                let n = if q <= cap { q } else { cap };
                if q > 0 {
                    let (cols, s1) = garbage_cols(rng_state(*old(rng)), n as nat);
                    let (rows2, died) = inject(old(self).board.rows@, cols);
                    &&& rng_state(*final(rng)) == s1
                    &&& final(self).board.rows@ == rows2
                    &&& final(self).garbage_queue == q - n
                    &&& final(self).state == (if died {
                        GameState::GameOver
                    } else {
                        old(self).state
                    })
                    &&& final(events)@.len() == old(events)@.len() + (if died { 2int } else { 1int })
                    &&& (final(events)@[old(events)@.len() as int] matches Event::GarbageAdded(v)
                        && v@ == cols)
                    &&& cols_in_range(cols)
                    &&& (died ==> final(events)@.last() == Event::GameOver)
                } else {
                    &&& *final(rng) == *old(rng)
                    &&& final(self).board.rows@ == old(self).board.rows@
                    &&& final(self).state == old(self).state
                    &&& final(self).garbage_queue == 0
                    &&& (atk > 0 ==> final(events)@ == old(events)@.push(Event::GarbageSent(atk)))
                    &&& (atk == 0 ==> final(events)@ == old(events)@)
                }
            }),
    {
        let r = reconcile(self.attacking, self.garbage_queue);
        self.attacking = r.0;
        self.garbage_queue = r.1;
        if self.garbage_queue > 0 {
            let ghost s0 = rng_state(*rng);
            let ghost rows0 = self.board.rows@;
            let n = if self.garbage_queue <= self.config.max_garbage_add {
                self.garbage_queue
            } else {
                self.config.max_garbage_add
            };
            self.garbage_queue = self.garbage_queue - n;
            let mut dead = false;
            let mut col = draw_below(rng, 10);
            let mut garbage_columns: Vec<usize> = Vec::new();
            let mut i: u32 = 0;
            while i < n
                invariant
                    self.board.wf(),
                    col < 10,
                    i <= n,
                    garbage_columns@.len() == i,
                    forall|j: int| 0 <= j < i ==> garbage_columns@[j] < 10,
                    rows0.len() == 20,
                    rows0 == old(self).board.rows@,
                    self.board.queue == old(self).board.queue,
                    self.board.hold_piece == old(self).board.hold_piece,
                    self.config == old(self).config,
                    self.did_hold == old(self).did_hold,
                    self.prev == old(self).prev,
                    self.used == old(self).used,
                    self.das_delay == old(self).das_delay,
                    self.state == old(self).state,
                    self.attacking == reconcile_spec(old(self).attacking, old(self).garbage_queue).0,
                    self.garbage_queue == reconcile_spec(old(self).attacking, old(self).garbage_queue).1 - n,
                    n == ({
                        let q = reconcile_spec(old(self).attacking, old(self).garbage_queue).1;
                        let cap = old(self).config.max_garbage_add;
                        if q <= cap { q } else { cap }
                    }),
                    events@ == old(events)@,
                    garbage_cols(s0, n as nat) == (
                        garbage_columns@ + garbage_walk(rng_state(*rng), col, (n - i) as nat).0,
                        garbage_walk(rng_state(*rng), col, (n - i) as nat).1,
                    ),
                    inject(rows0, garbage_columns@) == (self.board.rows@, dead),
                decreases n - i,
            {
                let ghost cols_before = garbage_columns@;
                let ghost s_before = rng_state(*rng);
                let ghost col_before = col;
                if draw_ratio(rng, 1, 3) {
                    col = draw_below(rng, 10);
                }
                proof {
                    let (rest, s3) = garbage_walk(rng_state(*rng), col, (n - i - 1) as nat);
                    assert(garbage_walk(s_before, col_before, (n - i) as nat) == (
                        seq![col as usize] + rest,
                        s3,
                    ));
                    assert(cols_before + (seq![col as usize] + rest) =~= cols_before.push(
                        col as usize,
                    ) + rest);
                }
                garbage_columns.push(col);
                proof {
                    lemma_inject_push(rows0, cols_before, col as usize);
                }
                let died_now = self.board.add_garbage(col);
                dead = dead || died_now;
                i += 1;
            }
            proof {
                assert(garbage_columns@ + garbage_walk(rng_state(*rng), col, 0).0
                    =~= garbage_columns@);
            }
            events.push(Event::GarbageAdded(garbage_columns));
            if dead {
                events.push(Event::GameOver);
                self.state = GameState::GameOver;
            }
            assert(events@.subrange(0, old(events)@.len() as int) =~= old(events)@);
        } else if self.attacking > 0 {
            events.push(Event::GarbageSent(self.attacking));
            self.attacking = 0;
            assert(events@.subrange(0, old(events)@.len() as int) =~= old(events)@);
        } else {
            assert(events@.subrange(0, old(events)@.len() as int) =~= old(events)@);
        }
    }

    /// Commit the falling piece: clear the hold flag, lock it into the
    /// stack, and either end the game (top-out), enter the line-clear delay
    /// (lines cleared, garbage deferred), or enter the spawn delay and deal
    /// garbage at once.
    pub fn lock(
        &mut self,
        falling: FallingState,
        events: &mut Vec<Event>,
        rng: &mut rand_pcg::Pcg64Mcg,
        dist: Option<i32>,
    )
        requires
            old(self).board.wf(),
            old(self).config.wf(),
            falling.piece.wf(),
            old(self).attacking == 0,
        ensures
            final(self).board.wf(),
            final(self).config == old(self).config,
            final(self).board.queue == old(self).board.queue,
            final(self).board.hold_piece == old(self).board.hold_piece,
            !final(self).did_hold,
            final(self).prev == old(self).prev,
            final(self).used == old(self).used,
            final(self).das_delay == old(self).das_delay,
            !(final(self).state is Falling),
            final(events)@.len() > old(events)@.len(),
            final(events)@.subrange(0, old(events)@.len() as int) == old(events)@,
            ({
                let y = falling.piece.y as int;
                let filled = old(self).board.rows@[y] | (1u16 << (falling.piece.x as u16));
                let placed = final(events)@[old(events)@.len() as int];
                let rows1 = old(self).board.rows@.update(y, filled);
                let q = old(self).garbage_queue;
                let cap = old(self).config.max_garbage_add;
                let n = if q <= cap { q } else { cap };
                &&& (placed matches Event::PiecePlaced { piece, locked, hard_drop_distance }
                    && piece == falling.piece && hard_drop_distance == dist
                    && locked.garbage_sent == (if filled == 1023 { 1u32 } else { 0u32 })
                    && locked.locked_out == (filled != 1023 && falling.piece.y == 19)
                    && locked.cleared_lines@ == (if filled == 1023 {
                        seq![falling.piece.y]
                    } else {
                        Seq::<i32>::empty()
                    }))
                &&& if filled == 1023 {
                    &&& final(self).board.rows@ == old(self).board.rows@.remove(y).push(0u16)
                    &&& final(self).state == GameState::LineClearDelay(
                        old(self).config.line_clear_delay,
                    )
                    &&& final(self).attacking == 1
                    &&& final(self).garbage_queue == old(self).garbage_queue
                    &&& *final(rng) == *old(rng)
                    &&& final(events)@.len() == old(events)@.len() + 1
                } else if falling.piece.y == 19 {
                    &&& final(self).board.rows@ == rows1
                    &&& final(self).state == GameState::GameOver
                    &&& final(self).attacking == 0
                    &&& final(self).garbage_queue == old(self).garbage_queue
                    &&& *final(rng) == *old(rng)
                    &&& final(events)@.len() == old(events)@.len() + 2
                    &&& final(events)@.last() == Event::GameOver
                } else if q > 0 {
                    let (cols, s1) = garbage_cols(rng_state(*old(rng)), n as nat);
                    let (rows2, died) = inject(rows1, cols);
                    &&& rng_state(*final(rng)) == s1
                    &&& final(self).board.rows@ == rows2
                    &&& final(self).garbage_queue == q - n
                    &&& final(self).attacking == 0
                    &&& final(self).state == (if died {
                        GameState::GameOver
                    } else {
                        GameState::SpawnDelay(old(self).config.spawn_delay)
                    })
                    &&& final(events)@.len() == old(events)@.len() + (if died { 3int } else { 2int })
                    &&& (final(events)@[old(events)@.len() as int + 1] matches Event::GarbageAdded(v)
                        && v@ == cols)
                    &&& cols_in_range(cols)
                    &&& (died ==> final(events)@.last() == Event::GameOver)
                } else {
                    &&& final(self).board.rows@ == rows1
                    &&& final(self).state == GameState::SpawnDelay(old(self).config.spawn_delay)
                    &&& final(self).attacking == 0
                    &&& final(self).garbage_queue == 0
                    &&& *final(rng) == *old(rng)
                    &&& final(events)@.len() == old(events)@.len() + 1
                }
            }),
    {
        self.did_hold = false;
        let locked = self.board.lock_piece(falling.piece);
        let locked_out = locked.locked_out;
        let cleared_none = locked.cleared_lines.len() == 0;
        let gs = locked.garbage_sent;
        events.push(Event::PiecePlaced { piece: falling.piece, locked, hard_drop_distance: dist });
        if locked_out {
            self.state = GameState::GameOver;
            events.push(Event::GameOver);
        } else if cleared_none {
            self.state = GameState::SpawnDelay(self.config.spawn_delay);
            self.deal_garbage(events, rng);
            proof {
                let idx = old(events)@.len() as int;
                assert(events@.subrange(0, idx + 1)[idx] == events@[idx]);
            }
        } else {
            self.attacking = self.attacking + gs;
            self.state = GameState::LineClearDelay(self.config.line_clear_delay);
        }
        assert(final(events)@.subrange(0, old(events)@.len() as int) =~= old(events)@);
    }

    /// The input phase of a tick: refresh every button's edge flag and run
    /// the delayed auto-shift countdown, before the state machine consumes
    /// anything.
    #[verifier::rlimit(100)]
    fn apply_input(&mut self, current: Controller)
        ensures
            final(self).used == input_phase(
                old(self).used,
                old(self).prev,
                current,
                old(self).das_delay,
                old(self).config,
            ).0,
            final(self).das_delay as int == input_phase(
                old(self).used,
                old(self).prev,
                current,
                old(self).das_delay,
                old(self).config,
            ).1,
            final(self).prev == current,
            final(self).board == old(self).board,
            final(self).state == old(self).state,
            final(self).config == old(self).config,
            final(self).did_hold == old(self).did_hold,
            final(self).garbage_queue == old(self).garbage_queue,
            final(self).attacking == old(self).attacking,
    {
        let prev = self.prev;
        let mut u = self.used;
        let mut left = u.left;
        let mut right = u.right;
        let mut rotate_right = u.rotate_right;
        let mut rotate_left = u.rotate_left;
        let mut hold = u.hold;
        update_input(&mut left, prev.left, current.left);
        update_input(&mut right, prev.right, current.right);
        update_input(&mut rotate_right, prev.rotate_right, current.rotate_right);
        update_input(&mut rotate_left, prev.rotate_left, current.rotate_left);
        update_input(&mut hold, prev.hold, current.hold);
        u.left = left;
        u.right = right;
        u.rotate_right = rotate_right;
        u.rotate_left = rotate_left;
        u.hold = hold;
        u.hard_drop = !prev.hard_drop && current.hard_drop;
        u.soft_drop = current.soft_drop;

        if current.left != current.right && prev.left == current.left {
            if u.left || u.right {
                // While movement is buffered, the time until the next shift
                // must not fall below the auto-repeat rate, or a piece could
                // shift twice in a burst right after it spawns.
                if self.das_delay > self.config.auto_repeat_rate {
                    self.das_delay = self.das_delay - 1;
                }
            } else if self.das_delay == 0 {
                // Auto-shift fires: rearm with the repeat rate.
                self.das_delay = self.config.auto_repeat_rate;
                u.left = current.left;
                u.right = current.right;
            } else {
                self.das_delay = self.das_delay - 1;
            }
        } else {
            // Both or neither direction held: rearm the full delay.
            self.das_delay = self.config.delayed_auto_shift;
        }
        self.used = u;
        self.prev = current;
    }

    /// Advance the game by one tick: refresh the edge flags and the
    /// auto-shift countdown, then run the active lifecycle stage, handing
    /// back this tick's events in order. The whole tick is captured by
    /// `update_rel`: the new state, the new generator and the returned
    /// events are that relation's image of the old state, the input and
    /// the old generator.
    #[verifier::rlimit(100)]
    pub fn update(&mut self, current: Controller, rng: &mut rand_pcg::Pcg64Mcg) -> (events: Vec<
        Event,
    >)
        requires
            old(self).wf(),
        ensures
            final(self).wf(),
            update_rel(*old(self), current, *old(rng), *final(self), *final(rng), events@),
    {
        self.apply_input(current);
        let st = self.state;
        match st {
            GameState::SpawnDelay(delay) => {
                if delay == 0 {
                    self.spawn_tick(rng)
                } else {
                    self.state = GameState::SpawnDelay(delay - 1);
                    if delay == self.config.spawn_delay {
                        let mut events: Vec<Event> = Vec::new();
                        events.push(Event::SpawnDelayStart);
                        events
                    } else {
                        Vec::new()
                    }
                }
            },
            GameState::LineClearDelay(delay) => {
                if delay == 0 {
                    self.line_clear_end_tick(rng)
                } else {
                    self.state = GameState::LineClearDelay(delay - 1);
                    Vec::new()
                }
            },
            GameState::GameOver => {
                let mut events: Vec<Event> = Vec::new();
                events.push(Event::GameOver);
                events
            },
            GameState::Falling(falling) => self.falling_tick(falling, rng),
        }
    }

    /// The spawn tick: pop the preview queue, refill it with a fresh draw,
    /// and either start the piece falling or end the game on a blocked
    /// spawn cell.
    fn spawn_tick(&mut self, rng: &mut rand_pcg::Pcg64Mcg) -> (events: Vec<Event>)
        requires
            old(self).wf(),
            !(old(self).state is LineClearDelay),
        ensures
            final(self).wf(),
            final(self).config == old(self).config,
            final(self).prev == old(self).prev,
            final(self).used == old(self).used,
            final(self).das_delay == old(self).das_delay,
            final(self).did_hold == old(self).did_hold,
            final(self).garbage_queue == old(self).garbage_queue,
            final(self).attacking == old(self).attacking,
            final(self).board.rows@ == old(self).board.rows@,
            final(self).board.hold_piece == old(self).board.hold_piece,
            ({
                let d0 = uniform_draw(rng_state(*old(rng)), 7);
                let k = kind_of(d0.0);
                &&& final(self).board.queue@ == old(self).board.queue@.skip(1).push(k)
                &&& rng_state(*final(rng)) == d0.1
                &&& if cell(old(self).board.rows@[19], 4) {
                    final(self).state == GameState::GameOver && events@ == seq![Event::GameOver]
                } else {
                    let spawned = (FallingPiece {
                        kind: old(self).board.queue@[0],
                        x: 4,
                        y: 19,
                        tspin: TspinStatus::NoSpin,
                    });
                    let rest = drop_row(old(self).board.rows@, 4, 19);
                    &&& final(self).state == GameState::Falling(
                        FallingState {
                            piece: spawned,
                            lowest_y: 19,
                            rotation_move_count: 0,
                            gravity: old(self).config.gravity,
                            lock_delay: 30,
                            soft_drop_delay: 0,
                        },
                    )
                    &&& events@ == seq![
                        Event::PieceSpawned { new_in_queue: k },
                        Event::PieceFalling(spawned, (FallingPiece { y: rest as i32, ..spawned })),
                    ]
                }
            }),
    {
        let next_piece = self.board.advance_queue().unwrap();
        let new_piece = self.board.generate_next_piece(rng);
        self.board.add_next_piece(new_piece);
        proof {
            assert(self.board.queue@ =~= old(self).board.queue@.skip(1).push(new_piece));
        }
        match FallingPiece::spawn(next_piece, &self.board) {
            Some(spawned) => {
                self.state = GameState::Falling(
                    FallingState {
                        piece: spawned,
                        lowest_y: spawned.y,
                        rotation_move_count: 0,
                        gravity: self.config.gravity,
                        lock_delay: 30,
                        soft_drop_delay: 0,
                    },
                );
                let mut shadow = spawned;
                proof {
                    crate::board::lemma_drop_row_props(self.board.rows@, 4, 19);
                }
                shadow.sonic_drop(&self.board);
                let mut events: Vec<Event> = Vec::new();
                events.push(Event::PieceSpawned { new_in_queue: new_piece });
                events.push(Event::PieceFalling(spawned, shadow));
                events
            },
            None => {
                self.state = GameState::GameOver;
                let mut events: Vec<Event> = Vec::new();
                events.push(Event::GameOver);
                events
            },
        }
    }

    /// The tick a line-clear delay expires: enter the spawn delay and
    /// reconcile garbage at once.
    fn line_clear_end_tick(&mut self, rng: &mut rand_pcg::Pcg64Mcg) -> (events: Vec<Event>)
        requires
            old(self).wf(),
        ensures
            final(self).wf(),
            final(self).config == old(self).config,
            final(self).prev == old(self).prev,
            final(self).used == old(self).used,
            final(self).das_delay == old(self).das_delay,
            final(self).did_hold == old(self).did_hold,
            final(self).attacking == 0,
            events@.len() >= 1,
            events@[0] == Event::EndOfLineClearDelay,
            ({
                let (atk, q) = reconcile_spec(old(self).attacking, old(self).garbage_queue);
                let cap = old(self).config.max_garbage_add;
                let n = if q <= cap { q } else { cap };
                if q > 0 {
                    let (cols, s1) = garbage_cols(rng_state(*old(rng)), n as nat);
                    let (rows2, died) = inject(old(self).board.rows@, cols);
                    &&& rng_state(*final(rng)) == s1
                    &&& final(self).board.rows@ == rows2
                    &&& final(self).garbage_queue == q - n
                    &&& final(self).state == (if died {
                        GameState::GameOver
                    } else {
                        GameState::SpawnDelay(old(self).config.spawn_delay)
                    })
                    &&& events@.len() == (if died { 3int } else { 2int })
                    &&& (events@[1] matches Event::GarbageAdded(v) && v@ == cols)
                    &&& cols_in_range(cols)
                    &&& (died ==> events@.last() == Event::GameOver)
                } else {
                    &&& *final(rng) == *old(rng)
                    &&& final(self).board.rows@ == old(self).board.rows@
                    &&& final(self).state == GameState::SpawnDelay(old(self).config.spawn_delay)
                    &&& final(self).garbage_queue == 0
                    &&& (atk > 0 ==> events@ == seq![
                        Event::EndOfLineClearDelay,
                        Event::GarbageSent(atk),
                    ])
                    &&& (atk == 0 ==> events@ == seq![Event::EndOfLineClearDelay])
                }
            }),
    {
        self.state = GameState::SpawnDelay(self.config.spawn_delay);
        let mut events: Vec<Event> = Vec::new();
        events.push(Event::EndOfLineClearDelay);
        self.deal_garbage(&mut events, rng);
        proof {
            assert(events@.subrange(0, 1int)[0] == events@[0]);
        }
        events
    }

    /// One tick of the falling stage: hold, rotations, shifts, the
    /// move-reset rule, hard drop, then lock delay or gravity and soft
    /// drop, closing with the piece-and-shadow snapshot.
    #[verifier::rlimit(100)]
    fn falling_tick(&mut self, falling: FallingState, rng: &mut rand_pcg::Pcg64Mcg) -> (events:
        Vec<Event>)
        requires
            old(self).wf(),
            old(self).state == GameState::Falling(falling),
        ensures
            final(self).wf(),
            final(self).config == old(self).config,
            final(self).prev == old(self).prev,
            final(self).das_delay == old(self).das_delay,
            ({
                let u = old(self).used;
                (!(u.hold && !old(self).did_hold) && !u.rotate_right && !u.rotate_left && !u.left
                    && !u.right && falling.rotation_move_count >= 15 && falling.piece.y
                    >= falling.lowest_y && drop_row(
                    old(self).board.rows@,
                    falling.piece.x as int,
                    falling.piece.y as int,
                ) >= falling.lowest_y) ==> !(final(self).state is Falling)
            }),
            ({
                let u = old(self).used;
                (!(u.hold && !old(self).did_hold) && !u.rotate_right && !u.rotate_left && !u.left
                    && !u.right && u.hard_drop && falling.rotation_move_count < 15) ==> ({
                    let rest = drop_row(
                        old(self).board.rows@,
                        falling.piece.x as int,
                        falling.piece.y as int,
                    );
                    &&& !(final(self).state is Falling)
                    &&& events@.len() >= 1
                    &&& (events@[0] matches Event::PiecePlaced { piece, locked, hard_drop_distance }
                        && piece == (FallingPiece { y: rest as i32, ..falling.piece })
                        && hard_drop_distance == Some((falling.piece.y - rest) as i32))
                })
            }),
            ({
                let u = old(self).used;
                (!(u.hold && !old(self).did_hold) && !u.rotate_right && !u.rotate_left && !u.left
                    && !u.right && !u.hard_drop && !u.soft_drop && falling.rotation_move_count < 15
                    && !resting(
                    old(self).board.rows@,
                    falling.piece.x as int,
                    falling.piece.y as int,
                )) ==> ({
                    let g = old(self).config.gravity as int;
                    let steps = grav_iters(falling.gravity - 100, g);
                    let rest = drop_row(
                        old(self).board.rows@,
                        falling.piece.x as int,
                        falling.piece.y as int,
                    );
                    let ny = if falling.piece.y - steps >= rest {
                        falling.piece.y - steps
                    } else {
                        rest
                    };
                    &&& (final(self).state matches GameState::Falling(f2)
                        && f2.piece == (FallingPiece { y: ny as i32, ..falling.piece })
                        && f2.gravity == falling.gravity - 100 + steps * g
                        && f2.lock_delay == 30)
                    &&& events@ == ({
                        let snapshot = Event::PieceFalling(
                            (FallingPiece { y: ny as i32, ..falling.piece }),
                            (FallingPiece {
                                y: drop_row(
                                    old(self).board.rows@,
                                    falling.piece.x as int,
                                    ny,
                                ) as i32,
                                ..falling.piece
                            }),
                        );
                        if resting(old(self).board.rows@, falling.piece.x as int, ny) {
                            Seq::<Event>::empty().push(Event::StackTouched).push(snapshot)
                        } else {
                            Seq::<Event>::empty().push(snapshot)
                        }
                    })
                })
            }),
            ({
                let u = old(self).used;
                (u.hold && !old(self).did_hold) ==> ({
                    let held_kind = falling.piece.kind;
                    &&& final(self).did_hold
                    &&& final(self).board.hold_piece == Some(held_kind)
                    &&& final(self).board.rows@ == old(self).board.rows@
                    &&& final(self).board.queue == old(self).board.queue
                    &&& final(self).garbage_queue == old(self).garbage_queue
                    &&& final(self).attacking == old(self).attacking
                    &&& *final(rng) == *old(rng)
                    &&& events@.len() >= 1
                    &&& events@[0] == Event::PieceHeld(held_kind)
                    &&& match old(self).board.hold_piece {
                        None => final(self).state == GameState::SpawnDelay(
                            old(self).config.spawn_delay,
                        ) && events@ == seq![Event::PieceHeld(held_kind)],
                        Some(k) => {
                            if cell(old(self).board.rows@[19], 4) {
                                final(self).state == GameState::GameOver && events@ == seq![
                                    Event::PieceHeld(held_kind),
                                    Event::GameOver,
                                ]
                            } else {
                                let spawned = (FallingPiece {
                                    kind: k,
                                    x: 4,
                                    y: 19,
                                    tspin: TspinStatus::NoSpin,
                                });
                                let rest = drop_row(old(self).board.rows@, 4, 19);
                                final(self).state == GameState::Falling(
                                    FallingState {
                                        piece: spawned,
                                        lowest_y: 19,
                                        rotation_move_count: 0,
                                        gravity: old(self).config.gravity,
                                        lock_delay: 30,
                                        soft_drop_delay: 0,
                                    },
                                ) && events@ == seq![
                                    Event::PieceHeld(held_kind),
                                    Event::PieceFalling(
                                        spawned,
                                        (FallingPiece { y: rest as i32, ..spawned }),
                                    ),
                                ]
                            }
                        },
                    }
                })
            }),
            ({
                let u = old(self).used;
                (!(u.hold && !old(self).did_hold) && !u.rotate_right && !u.rotate_left && !u.left
                    && !u.right && !u.hard_drop && falling.rotation_move_count < 15 && resting(
                    old(self).board.rows@,
                    falling.piece.x as int,
                    falling.piece.y as int,
                )) ==> ({
                    if falling.lock_delay > 1 {
                        &&& final(self).state == GameState::Falling(
                            FallingState {
                                lock_delay: (falling.lock_delay - 1) as u32,
                                gravity: old(self).config.gravity,
                                rotation_move_count: if falling.piece.y < falling.lowest_y {
                                    0u32
                                } else {
                                    falling.rotation_move_count
                                },
                                lowest_y: if falling.piece.y < falling.lowest_y {
                                    falling.piece.y
                                } else {
                                    falling.lowest_y
                                },
                                ..falling
                            },
                        )
                        &&& events@ == seq![Event::PieceFalling(falling.piece, falling.piece)]
                    } else {
                        &&& !(final(self).state is Falling)
                        &&& events@.len() >= 1
                        &&& (events@[0] matches Event::PiecePlaced {
                            piece,
                            locked,
                            hard_drop_distance,
                        } && piece == falling.piece && hard_drop_distance == Option::<i32>::None)
                    }
                })
            }),
    {
        let mut events: Vec<Event> = Vec::new();
        let mut f = falling;
        let was_on_stack = self.board.on_stack(&f.piece);

        // Hold: swapping consumes the rest of the tick.
        if !self.did_hold && self.used.hold {
            self.did_hold = true;
            events.push(Event::PieceHeld(f.piece.kind));
            match self.board.hold(f.piece.kind) {
                Some(piece) => {
                    match FallingPiece::spawn(piece, &self.board) {
                        Some(spawned) => {
                            self.state = GameState::Falling(
                                FallingState {
                                    piece: spawned,
                                    lowest_y: spawned.y,
                                    rotation_move_count: 0,
                                    gravity: self.config.gravity,
                                    lock_delay: 30,
                                    soft_drop_delay: 0,
                                },
                            );
                            let mut shadow = spawned;
                            proof {
                                crate::board::lemma_drop_row_props(self.board.rows@, 4, 19);
                            }
                            shadow.sonic_drop(&self.board);
                            events.push(Event::PieceFalling(spawned, shadow));
                        },
                        None => {
                            self.state = GameState::GameOver;
                            events.push(Event::GameOver);
                        },
                    }
                },
                None => {
                    self.state = GameState::SpawnDelay(self.config.spawn_delay);
                },
            }
            return events;
        }

        apply_moves(&mut f, &self.board, &mut self.used, &mut events);

        // Descending to a new lowest row grants fresh moves.
        if f.piece.y < f.lowest_y {
            f.rotation_move_count = 0;
            f.lowest_y = f.piece.y;
        }

        // Move limit: lock now unless the projection would descend further.
        if f.rotation_move_count >= 15 {
            let mut p = f.piece;
            proof {
                crate::board::lemma_drop_row_props(
                    self.board.rows@,
                    p.x as int,
                    p.y as int,
                );
            }
            p.sonic_drop(&self.board);
            if p.y >= f.lowest_y {
                self.lock(f, &mut events, rng, None);
                return events;
            }
        }

        // Hard drop.
        if self.used.hard_drop {
            let y0 = f.piece.y;
            proof {
                crate::board::lemma_drop_row_props(
                    self.board.rows@,
                    f.piece.x as int,
                    f.piece.y as int,
                );
            }
            f.piece.sonic_drop(&self.board);
            let distance = y0 - f.piece.y;
            self.lock(f, &mut events, rng, Some(distance));
            return events;
        }

        if self.board.on_stack(&f.piece) {
            // Lock delay.
            if !was_on_stack {
                events.push(Event::StackTouched);
            }
            f.lock_delay = f.lock_delay - 1;
            f.gravity = self.config.gravity;
            if f.lock_delay == 0 {
                self.lock(f, &mut events, rng, None);
                return events;
            }
        } else {
            apply_gravity(
                &mut f,
                &self.board,
                self.config,
                self.used.soft_drop,
                &mut events,
            );
        }

        let mut shadow = f.piece;
        shadow.sonic_drop(&self.board);
        events.push(Event::PieceFalling(f.piece, shadow));
        self.state = GameState::Falling(f);
        events
    }

}

/// The airborne part of a tick: charge the accumulator one hundredth of a
/// tick, drop one cell for every whole gravity period owed (stopping at the
/// stack), then report a touch or run the independent soft-drop countdown.
pub fn apply_gravity(
    f: &mut FallingState,
    board: &Board,
    config: GameConfig,
    soft_drop_used: bool,
    events: &mut Vec<Event>,
)
    requires
        board.wf(),
        config.wf(),
        old(f).piece.wf(),
        0 <= old(f).gravity <= config.gravity,
        old(f).soft_drop_delay <= config.soft_drop_speed,
        !resting(board.rows@, old(f).piece.x as int, old(f).piece.y as int),
    ensures
        final(f).piece.wf(),
        final(f).piece.x == old(f).piece.x,
        final(f).piece.kind == old(f).piece.kind,
        final(f).piece.tspin == old(f).piece.tspin,
        final(f).lowest_y == old(f).lowest_y,
        final(f).rotation_move_count == old(f).rotation_move_count,
        final(f).lock_delay == 30,
        0 <= final(f).gravity <= config.gravity,
        final(f).soft_drop_delay <= config.soft_drop_speed,
        final(events)@.len() >= old(events)@.len(),
        final(events)@.subrange(0, old(events)@.len() as int) == old(events)@,
        ({
            let g = config.gravity as int;
            let steps = grav_iters(old(f).gravity - 100, g);
            let rest = drop_row(board.rows@, old(f).piece.x as int, old(f).piece.y as int);
            let ny = if old(f).piece.y - steps >= rest {
                old(f).piece.y - steps
            } else {
                rest
            };
            let acc1 = old(f).gravity - 100 + steps * g;
            &&& 0 <= ny < 20
            &&& if resting(board.rows@, old(f).piece.x as int, ny) {
                &&& final(f).piece.y == ny as i32
                &&& final(f).gravity == acc1
                &&& final(f).soft_drop_delay == old(f).soft_drop_delay
                &&& final(events)@ == old(events)@.push(Event::StackTouched)
            } else if config.gravity > config.soft_drop_speed * 100 && soft_drop_used {
                if old(f).soft_drop_delay == 0 {
                    &&& final(f).piece.y == (ny - 1) as i32
                    &&& final(f).gravity == config.gravity
                    &&& final(f).soft_drop_delay == config.soft_drop_speed
                    &&& final(events)@ == (if resting(board.rows@, old(f).piece.x as int, ny - 1) {
                        old(events)@.push(Event::PieceMoved).push(Event::StackTouched).push(
                            Event::SoftDropped,
                        )
                    } else {
                        old(events)@.push(Event::PieceMoved).push(Event::SoftDropped)
                    })
                } else {
                    &&& final(f).piece.y == ny as i32
                    &&& final(f).gravity == acc1
                    &&& final(f).soft_drop_delay == old(f).soft_drop_delay - 1
                    &&& final(events)@ == old(events)@
                }
            } else {
                &&& final(f).piece.y == ny as i32
                &&& final(f).gravity == acc1
                &&& final(f).soft_drop_delay == (if config.gravity > config.soft_drop_speed * 100 {
                    0u32
                } else {
                    old(f).soft_drop_delay
                })
                &&& final(events)@ == old(events)@
            }
        }),
{
    f.lock_delay = 30;
    let ghost piece0 = f.piece;
    let ghost a0 = f.gravity as int;
    let ghost y0 = f.piece.y as int;
    let ghost x0 = f.piece.x as int;
    let ghost rows_g = board.rows@;
    let ghost g_int = config.gravity as int;
    let ghost rest = drop_row(rows_g, x0, y0);
    proof {
        crate::board::lemma_drop_row_props(rows_g, x0, y0);
    }
    let ghost mut k: int = 0;
    f.gravity = f.gravity - 100;
    while f.gravity < 0
        invariant
            board.wf(),
            config.wf(),
            rows_g == board.rows@,
            g_int == config.gravity as int,
            f.piece.wf(),
            f.piece == (FallingPiece { y: f.piece.y, ..piece0 }),
            f.lowest_y == old(f).lowest_y,
            f.rotation_move_count == old(f).rotation_move_count,
            f.lock_delay == 30,
            f.soft_drop_delay == old(f).soft_drop_delay,
            0 <= rest <= y0,
            y0 < 20,
            rest == drop_row(rows_g, x0, y0),
            x0 == piece0.x as int,
            resting(rows_g, x0, rest),
            forall|y2: int| rest < y2 <= y0 ==> !resting(rows_g, x0, y2),
            k >= 0,
            -100 <= f.gravity as int <= g_int,
            f.gravity as int == a0 - 100 + k * g_int,
            grav_iters(a0 - 100, g_int) == k + grav_iters(f.gravity as int, g_int),
            f.piece.y as int == (if y0 - k >= rest {
                y0 - k
            } else {
                rest
            }),
        decreases (if f.gravity < 0 {
            0 - f.gravity
        } else {
            0
        }),
    {
        let ghost y_cur = f.piece.y as int;
        proof {
            assert(grav_iters(f.gravity as int, g_int) == 1 + grav_iters(
                f.gravity as int + g_int,
                g_int,
            ));
            assert((k + 1) * g_int == k * g_int + g_int) by (nonlinear_arith);
        }
        f.gravity = f.gravity + config.gravity;
        f.piece.shift(board, 0, -1);
        proof {
            k = k + 1;
            if y_cur > rest {
                assert(y_cur <= y0);
                assert(!resting(rows_g, x0, y_cur));
                assert(f.piece.y as int == y_cur - 1);
            } else {
                assert(y_cur == rest);
                assert(resting(rows_g, x0, y_cur));
                assert(f.piece.y as int == y_cur);
            }
        }
    }

    if board.on_stack(&f.piece) {
        events.push(Event::StackTouched);
    } else if config.gravity > (config.soft_drop_speed as i32) * 100 {
        // Soft drop, on its own countdown, faster than gravity.
        if soft_drop_used {
            if f.soft_drop_delay == 0 {
                f.piece.shift(board, 0, -1);
                f.soft_drop_delay = config.soft_drop_speed;
                f.gravity = config.gravity;
                events.push(Event::PieceMoved);
                if board.on_stack(&f.piece) {
                    events.push(Event::StackTouched);
                }
                events.push(Event::SoftDropped);
            } else {
                f.soft_drop_delay = f.soft_drop_delay - 1;
            }
        } else {
            f.soft_drop_delay = 0;
        }
    }
    assert(final(events)@.subrange(0, old(events)@.len() as int) =~= old(events)@);
}

/// One successful rotation or shift: the move is counted (saturating at the
/// move limit, where only the threshold is ever read) and the lock delay is
/// rearmed.
pub open spec fn counted_move(f: FallingState) -> FallingState {
    FallingState {
        rotation_move_count: if f.rotation_move_count < 15 {
            (f.rotation_move_count + 1) as u32
        } else {
            f.rotation_move_count
        },
        lock_delay: 30,
        ..f
    }
}

/// The event a successful rotation reports: a spin if the rotated piece
/// carries one, an ordinary rotation otherwise.
pub open spec fn rotation_event(f: FallingState) -> Event {
    if f.piece.tspin != TspinStatus::NoSpin {
        Event::PieceTSpined
    } else {
        Event::PieceRotated
    }
}

/// A one-cell horizontal shift succeeds exactly when the target cell lies
/// on the field and is empty.
pub open spec fn shift_ok(rows: Seq<u16>, p: FallingPiece, dx: int) -> bool {
    0 <= p.x + dx < 10 && !cell(rows[p.y as int], p.x + dx)
}

/// One rotation attempt on the running (piece, flags, events) state. A unit
/// cell rotates in place, so a tried rotation always succeeds: the flag is
/// consumed, the move counted, the lock delay rearmed and the event pushed.
pub open spec fn rotate_attempt(st: (FallingState, Controller, Seq<Event>), cw: bool) -> (
    FallingState,
    Controller,
    Seq<Event>,
) {
    let (f, u, es) = st;
    if (if cw {
        u.rotate_right
    } else {
        u.rotate_left
    }) {
        let u2 = if cw {
            Controller { rotate_right: false, ..u }
        } else {
            Controller { rotate_left: false, ..u }
        };
        (counted_move(f), u2, es.push(rotation_event(f)))
    } else {
        st
    }
}

/// One shift attempt on the running state. A success consumes the flag,
/// counts the move, rearms the lock delay and pushes the event; a failed
/// attempt changes nothing and leaves the flag armed for the next tick.
pub open spec fn shift_attempt(
    st: (FallingState, Controller, Seq<Event>),
    rows: Seq<u16>,
    dx: int,
) -> (FallingState, Controller, Seq<Event>) {
    let (f, u, es) = st;
    if (if dx < 0 {
        u.left
    } else {
        u.right
    }) && shift_ok(rows, f.piece, dx) {
        let u2 = if dx < 0 {
            Controller { left: false, ..u }
        } else {
            Controller { right: false, ..u }
        };
        (
            FallingState { piece: FallingPiece { x: (f.piece.x + dx) as i32, ..f.piece }, ..counted_move(f) },
            u2,
            es.push(Event::PieceMoved),
        )
    } else {
        st
    }
}

/// The whole rotation-and-shift phase of a tick, in its fixed order:
/// clockwise rotation, counter-clockwise rotation, left shift, right shift.
pub open spec fn moves_spec(f0: FallingState, u0: Controller, rows: Seq<u16>) -> (
    FallingState,
    Controller,
    Seq<Event>,
) {
    shift_attempt(
        shift_attempt(
            rotate_attempt(rotate_attempt((f0, u0, Seq::<Event>::empty()), true), false),
            rows,
            -1,
        ),
        rows,
        1,
    )
}

/// The rotation and shift phase of a tick: try clockwise then
/// counter-clockwise rotation, then a left then a right shift. Each success
/// consumes its edge flag, counts a move, and rearms the lock delay.
#[verifier::rlimit(100)]
pub fn apply_moves(
    f: &mut FallingState,
    board: &Board,
    used: &mut Controller,
    events: &mut Vec<Event>,
)
    requires
        board.wf(),
        old(f).piece.wf(),
        old(f).rotation_move_count <= 15,
        old(f).piece.tspin == TspinStatus::NoSpin,
    ensures
        final(f).piece.wf(),
        final(f).piece.tspin == TspinStatus::NoSpin,
        final(f).piece.kind == old(f).piece.kind,
        final(f).piece.y == old(f).piece.y,
        final(f).rotation_move_count <= 15,
        final(f).gravity == old(f).gravity,
        final(f).soft_drop_delay == old(f).soft_drop_delay,
        final(f).lowest_y == old(f).lowest_y,
        final(f).lock_delay == old(f).lock_delay || final(f).lock_delay == 30,
        final(used).hold == old(used).hold,
        final(used).hard_drop == old(used).hard_drop,
        final(used).soft_drop == old(used).soft_drop,
        final(events)@.len() >= old(events)@.len(),
        final(events)@.subrange(0, old(events)@.len() as int) == old(events)@,
        (!old(used).rotate_right && !old(used).rotate_left && !old(used).left && !old(
            used,
        ).right) ==> (*final(f) == *old(f) && final(events)@ == old(events)@ && *final(used)
            == *old(used)),
        ({
            let (f2, u2, es) = moves_spec(*old(f), *old(used), board.rows@);
            *final(f) == f2 && *final(used) == u2 && final(events)@ == old(events)@ + es
        }),
{
    let ghost st0 = (*old(f), *old(used), Seq::<Event>::empty());
    let ghost rows = board.rows@;
    if used.rotate_right {
        if f.piece.cw(board) {
            used.rotate_right = false;
            if f.rotation_move_count < 15 {
                f.rotation_move_count = f.rotation_move_count + 1;
            }
            f.lock_delay = 30;
            match f.piece.tspin {
                TspinStatus::NoSpin => events.push(Event::PieceRotated),
                _ => events.push(Event::PieceTSpined),
            }
        }
    }
    proof {
        let st1 = rotate_attempt(st0, true);
        assert(*f == st1.0 && *used == st1.1 && events@ =~= old(events)@ + st1.2);
    }
    if used.rotate_left {
        if f.piece.ccw(board) {
            used.rotate_left = false;
            if f.rotation_move_count < 15 {
                f.rotation_move_count = f.rotation_move_count + 1;
            }
            f.lock_delay = 30;
            match f.piece.tspin {
                TspinStatus::NoSpin => events.push(Event::PieceRotated),
                _ => events.push(Event::PieceTSpined),
            }
        }
    }
    proof {
        let st2 = rotate_attempt(rotate_attempt(st0, true), false);
        assert(*f == st2.0 && *used == st2.1 && events@ =~= old(events)@ + st2.2);
    }
    if used.left {
        if f.piece.shift(board, -1, 0) {
            used.left = false;
            if f.rotation_move_count < 15 {
                f.rotation_move_count = f.rotation_move_count + 1;
            }
            f.lock_delay = 30;
            events.push(Event::PieceMoved);
        }
    }
    proof {
        let st3 = shift_attempt(rotate_attempt(rotate_attempt(st0, true), false), rows, -1);
        assert(*f == st3.0 && *used == st3.1 && events@ =~= old(events)@ + st3.2);
    }
    if used.right {
        if f.piece.shift(board, 1, 0) {
            used.right = false;
            if f.rotation_move_count < 15 {
                f.rotation_move_count = f.rotation_move_count + 1;
            }
            f.lock_delay = 30;
            events.push(Event::PieceMoved);
        }
    }
    assert(final(events)@.subrange(0, old(events)@.len() as int) =~= old(events)@);
}

/// Edge-triggering law: holding a button across ticks never re-arms a
/// consumed flag, releasing always clears it, and a fresh press (including
/// a release-and-repress between ticks) always arms it.
pub proof fn lemma_edge_trigger(used: bool, prev: bool, current: bool)
    ensures
        !current ==> !used_after(used, prev, current),
        (!prev && current) ==> used_after(used, prev, current),
        (prev && current) ==> used_after(used, prev, current) == used,
{
}

/// Delayed auto-shift law: while exactly one direction stays held and no
/// shift is buffered, the countdown falls by one each tick and no shift is
/// armed; the tick it reaches zero arms one shift in the held direction
/// and re-arms the countdown with the auto-repeat rate.
pub proof fn lemma_das_countdown(
    used: Controller,
    prev: Controller,
    current: Controller,
    das: u32,
    config: GameConfig,
)
    requires
        current.left != current.right,
        prev.left == current.left,
        prev.right == current.right,
        !used_after(used.left, prev.left, current.left),
        !used_after(used.right, prev.right, current.right),
    ensures
        das > 0 ==> ({
            let (u, d) = input_phase(used, prev, current, das, config);
            d == das - 1 && !u.left && !u.right
        }),
        das == 0 ==> ({
            let (u, d) = input_phase(used, prev, current, das, config);
            d == config.auto_repeat_rate as int && u.left == current.left && u.right
                == current.right
        }),
{
}

} // verus!
