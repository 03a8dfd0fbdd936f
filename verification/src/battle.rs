//! The two-player orchestrator.
//!
//! A battle drives two independent games in lockstep, one tick per call:
//! it advances the shared clock and the margin-time attack multiplier,
//! appends the raw input pair to the replay log, updates both players with
//! their own RNG streams, and routes each player's outgoing garbage to the
//! other, scaled by the multiplier. A battle is reproducible from its two
//! seeds, its config and the logged inputs alone.

use vstd::prelude::*;
use std::collections::VecDeque;
use crate::controller::Controller;
use crate::game::{update_rel, Event, Game, GameConfig, GameState};
use crate::rng::{rng_from_seed, rng_state, seed_state};

verus! {

/// Auxiliary display lines a driver may attach to a logged tick.
pub type Info = Vec<(String, Option<String>)>;

/// The minimal state that reconstructs a whole battle: both seeds, the
/// config, and the ordered per-tick input pairs.
pub struct Replay {
    pub p1_seed: [u8; 16],
    pub p2_seed: [u8; 16],
    pub config: GameConfig,
    pub updates: VecDeque<(Controller, Option<Info>, Controller, Option<Info>)>,
}

/// One player's share of a tick's outcome.
pub struct GraphicsUpdate {
    pub events: Vec<Event>,
    pub garbage_queue: u32,
    pub info: Option<Info>,
}

/// What one call to `Battle::update` reports.
pub struct UpdateResult {
    pub player_1: GraphicsUpdate,
    pub player_2: GraphicsUpdate,
    pub time: u32,
    /// The attack multiplier, counted in halves: 2 stands for 1, and every
    /// margin-time step adds another half.
    pub attack_multiplier_halves: u32,
}

pub struct Battle {
    pub player_1: Game,
    pub player_2: Game,
    pub p1_rng: rand_pcg::Pcg64Mcg,
    pub p2_rng: rand_pcg::Pcg64Mcg,
    pub time: u32,
    /// Attack multiplier in halves; starts at 2, meaning 1.
    pub multiplier_halves: u32,
    pub margin_time: Option<u32>,
    pub replay: Replay,
}

/// An attack amount scaled by the multiplier (in halves, truncating), then
/// added onto a queue; both steps saturate at the machine limit.
pub open spec fn scaled_add(queue: u32, amt: u32, halves: u32) -> u32 {
    let s = amt * halves / 2;
    let s32 = if s > 0xffff_ffff {
        0xffff_ffffu32
    } else {
        s as u32
    };
    if queue + s32 > 0xffff_ffff {
        0xffff_ffffu32
    } else {
        (queue + s32) as u32
    }
}

/// A queue after every `GarbageSent` event of a tick has been routed onto
/// it, in order.
pub open spec fn route_fold(queue: u32, events: Seq<Event>, halves: u32) -> u32
    decreases events.len(),
{
    if events.len() == 0 {
        queue
    } else {
        let q1 = match events[0] {
            Event::GarbageSent(amt) => scaled_add(queue, amt, halves),
            _ => queue,
        };
        route_fold(q1, events.skip(1), halves)
    }
}

/// The two games agree on everything but the incoming-garbage queue: the
/// shape a player's game has right after its own tick, before the other
/// player's garbage is routed onto it.
pub open spec fn eq_but_garbage_queue(a: Game, b: Game) -> bool {
    &&& a.board == b.board
    &&& a.state == b.state
    &&& a.config == b.config
    &&& a.did_hold == b.did_hold
    &&& a.prev == b.prev
    &&& a.used == b.used
    &&& a.das_delay == b.das_delay
    &&& a.attacking == b.attacking
}

/// Scale an attack by the multiplier and add it to a garbage queue,
/// saturating rather than wrapping.
fn scale_onto(queue: u32, amt: u32, halves: u32) -> (r: u32)
    ensures
        r == scaled_add(queue, amt, halves),
{
    proof {
        let a = amt as int;
        let h = halves as int;
        assert(a * h < 0x10000000000000000) by (nonlinear_arith)
            requires
                0 <= a <= 0xffff_ffff,
                0 <= h <= 0xffff_ffff,
        ;
    }
    let wide: u64 = (amt as u64) * (halves as u64) / 2;
    let s32: u32 = if wide > 0xffff_ffff {
        0xffff_ffffu32
    } else {
        wide as u32
    };
    if queue > 0xffff_ffffu32 - s32 {
        0xffff_ffffu32
    } else {
        queue + s32
    }
}

impl Battle {
    /// Both games are sound and play under the same rules.
    pub open spec fn wf(self) -> bool {
        &&& self.player_1.wf()
        &&& self.player_2.wf()
        &&& self.player_1.config == self.replay.config
        &&& self.player_2.config == self.replay.config
    }

    /// Start a battle: seed one independent RNG stream per player, deal
    /// each player a fresh game, and open an empty replay log.
    pub fn new(config: GameConfig, p1_seed: [u8; 16], p2_seed: [u8; 16]) -> (b: Battle)
        requires
            config.wf(),
        ensures
            b.wf(),
            b.time == 0,
            b.multiplier_halves == 2,
            b.margin_time == config.margin_time,
            b.replay.p1_seed == p1_seed,
            b.replay.p2_seed == p2_seed,
            b.replay.config == config,
            b.replay.updates@.len() == 0,
            b.player_1.garbage_queue == 0,
            b.player_2.garbage_queue == 0,
            b.player_1.config == config && b.player_2.config == config,
            b.player_1.state == GameState::SpawnDelay(config.spawn_delay),
            b.player_2.state == GameState::SpawnDelay(config.spawn_delay),
            !b.player_1.did_hold && !b.player_2.did_hold,
            b.player_1.prev == Controller::released(),
            b.player_1.used == Controller::released(),
            b.player_2.prev == Controller::released(),
            b.player_2.used == Controller::released(),
            b.player_1.das_delay == config.delayed_auto_shift,
            b.player_2.das_delay == config.delayed_auto_shift,
            b.player_1.attacking == 0 && b.player_2.attacking == 0,
            b.player_1.board.rows@ == Seq::new(20, |i: int| 0u16),
            b.player_2.board.rows@ == Seq::new(20, |i: int| 0u16),
            b.player_1.board.hold_piece is None,
            b.player_2.board.hold_piece is None,
            ({
                let (q1, s1) = crate::game::gen_queue(
                    seed_state(p1_seed@),
                    config.next_queue_size as nat,
                );
                b.player_1.board.queue@ == q1 && rng_state(b.p1_rng) == s1
            }),
            ({
                let (q2, s2) = crate::game::gen_queue(
                    seed_state(p2_seed@),
                    config.next_queue_size as nat,
                );
                b.player_2.board.queue@ == q2 && rng_state(b.p2_rng) == s2
            }),
    {
        let mut p1_rng = rng_from_seed(p1_seed);
        let mut p2_rng = rng_from_seed(p2_seed);
        let player_1 = Game::new(config, &mut p1_rng);
        let player_2 = Game::new(config, &mut p2_rng);
        Battle {
            replay: Replay { config, p1_seed, p2_seed, updates: VecDeque::new() },
            player_1,
            player_2,
            p1_rng,
            p2_rng,
            time: 0,
            margin_time: config.margin_time,
            multiplier_halves: 2,
        }
    }

    /// One tick of the battle: advance the clock and the margin-time
    /// multiplier, log the inputs, update both players, and cross-route
    /// their outgoing garbage scaled by the multiplier. A tick's outgoing
    /// attack never offsets the same tick's incoming garbage: reconciliation
    /// only happens when a later lock resolves.
    #[verifier::rlimit(100)]
    pub fn update(&mut self, p1: Controller, p2: Controller) -> (r: UpdateResult)
        requires
            old(self).wf(),
        ensures
            final(self).wf(),
            final(self).margin_time == old(self).margin_time,
            final(self).time == (if old(self).time < 0xffff_ffffu32 {
                (old(self).time + 1) as u32
            } else {
                old(self).time
            }),
            final(self).multiplier_halves == (if ({
                let t = final(self).time;
                match old(self).margin_time {
                    Some(m) => t >= m && ((t - m) % 1800 == 0),
                    None => false,
                }
            }) && old(self).multiplier_halves < 0xffff_ffffu32 {
                (old(self).multiplier_halves + 1) as u32
            } else {
                old(self).multiplier_halves
            }),
            final(self).replay.config == old(self).replay.config,
            final(self).replay.p1_seed == old(self).replay.p1_seed,
            final(self).replay.p2_seed == old(self).replay.p2_seed,
            final(self).replay.updates@ == old(self).replay.updates@.push(
                (p1, Option::<Info>::None, p2, Option::<Info>::None),
            ),
            r.time == final(self).time,
            r.attack_multiplier_halves == final(self).multiplier_halves,
            r.player_1.garbage_queue == final(self).player_1.garbage_queue,
            r.player_2.garbage_queue == final(self).player_2.garbage_queue,
            r.player_1.info is None,
            r.player_2.info is None,
            // Each player's game and returned event list evolve by that
            // player's own tick relation, on their own RNG stream; their
            // queue then carries the other player's sent garbage, folded on
            // in order and scaled by the multiplier now in force. A tick's
            // outgoing attack never offsets the same tick's incoming
            // garbage.
            (exists|mid: Game|
                #![trigger eq_but_garbage_queue(final(self).player_1, mid)]
                {
                    &&& update_rel(
                        old(self).player_1,
                        p1,
                        old(self).p1_rng,
                        mid,
                        final(self).p1_rng,
                        r.player_1.events@,
                    )
                    &&& eq_but_garbage_queue(final(self).player_1, mid)
                    &&& final(self).player_1.garbage_queue == route_fold(
                        mid.garbage_queue,
                        r.player_2.events@,
                        final(self).multiplier_halves,
                    )
                }),
            (exists|mid: Game|
                #![trigger eq_but_garbage_queue(final(self).player_2, mid)]
                {
                    &&& update_rel(
                        old(self).player_2,
                        p2,
                        old(self).p2_rng,
                        mid,
                        final(self).p2_rng,
                        r.player_2.events@,
                    )
                    &&& eq_but_garbage_queue(final(self).player_2, mid)
                    &&& final(self).player_2.garbage_queue == route_fold(
                        mid.garbage_queue,
                        r.player_1.events@,
                        final(self).multiplier_halves,
                    )
                }),
    {
        if self.time < 0xffff_ffffu32 {
            self.time = self.time + 1;
        }
        match self.margin_time {
            Some(margin_time) => {
                if self.time >= margin_time && (self.time - margin_time) % 1800 == 0 {
                    if self.multiplier_halves < 0xffff_ffffu32 {
                        self.multiplier_halves = self.multiplier_halves + 1;
                    }
                }
            },
            None => {},
        }

        self.replay.updates.push_back((p1, None, p2, None));

        let p1_events = self.player_1.update(p1, &mut self.p1_rng);
        let p2_events = self.player_2.update(p2, &mut self.p2_rng);
        let ghost p1_mid = self.player_1;
        let ghost p2_mid = self.player_2;

        self.player_2.garbage_queue = route_garbage(
            self.player_2.garbage_queue,
            &p1_events,
            self.multiplier_halves,
        );
        self.player_1.garbage_queue = route_garbage(
            self.player_1.garbage_queue,
            &p2_events,
            self.multiplier_halves,
        );

        let r = UpdateResult {
            player_1: GraphicsUpdate {
                events: p1_events,
                garbage_queue: self.player_1.garbage_queue,
                info: None,
            },
            player_2: GraphicsUpdate {
                events: p2_events,
                garbage_queue: self.player_2.garbage_queue,
                info: None,
            },
            time: self.time,
            attack_multiplier_halves: self.multiplier_halves,
        };
        proof {
            assert(eq_but_garbage_queue(self.player_1, p1_mid));
            assert(eq_but_garbage_queue(self.player_2, p2_mid));
        }
        r
    }
}

/// Add every `GarbageSent` amount of a tick's events onto a garbage queue,
/// in order, scaled by the multiplier.
pub fn route_garbage(queue: u32, events: &Vec<Event>, halves: u32) -> (r: u32)
    ensures
        r == route_fold(queue, events@, halves),
{
    let mut q = queue;
    let mut i: usize = 0;
    proof {
        assert(events@.skip(0) =~= events@);
    }
    while i < events.len()
        invariant
            i <= events@.len(),
            route_fold(queue, events@, halves) == route_fold(q, events@.skip(i as int), halves),
        decreases events@.len() - i,
    {
        match &events[i] {
            Event::GarbageSent(amt) => {
                q = scale_onto(q, *amt, halves);
            },
            _ => {},
        }
        proof {
            assert(events@.skip(i as int)[0] == events@[i as int]);
            assert(events@.skip(i as int).skip(1) =~= events@.skip(i as int + 1));
        }
        i = i + 1;
    }
    q
}

} // verus!
