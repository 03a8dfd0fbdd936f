use libtetris::{Battle, Controller, Event, Game, GameConfig, GameState};
use libtetris::game::{reconcile, update_input};
use rand::SeedableRng;
use rand_pcg::Pcg64Mcg;

fn test_config() -> GameConfig {
    GameConfig {
        spawn_delay: 0,
        line_clear_delay: 45,
        delayed_auto_shift: 12,
        auto_repeat_rate: 1,
        soft_drop_speed: 1,
        gravity: 450000,
        next_queue_size: 5,
        margin_time: None,
        max_garbage_add: 10,
    }
}

fn held(f: impl Fn(&mut Controller)) -> Controller {
    let mut c = Controller::default();
    f(&mut c);
    c
}

#[test]
fn controller_round_trip_all_combinations() {
    for bits in 0u8..128 {
        let c = Controller::deserialize(bits << 1);
        let byte = c.serialize();
        assert_eq!(byte, bits << 1);
        assert_eq!(Controller::deserialize(byte), c);
    }
}

#[test]
fn controller_wire_layout() {
    let c = held(|c| {
        c.left = true;
        c.hard_drop = true;
    });
    assert_eq!(c.serialize(), 0b1000_0010);
    let c = held(|c| {
        c.rotate_left = true;
        c.rotate_right = true;
        c.hold = true;
        c.soft_drop = true;
    });
    assert_eq!(c.serialize(), 0b0111_1000);
}

#[test]
fn edge_triggering_pulses() {
    let mut used = false;
    // fresh press arms the flag
    update_input(&mut used, false, true);
    assert!(used);
    // the machine consumes it; holding does not re-arm it
    used = false;
    update_input(&mut used, true, true);
    assert!(!used);
    // release clears, re-press re-arms
    update_input(&mut used, true, false);
    assert!(!used);
    update_input(&mut used, false, true);
    assert!(used);
}

#[test]
fn das_arr_shift_cadence() {
    let mut rng = Pcg64Mcg::from_seed([7; 16]);
    let mut game = Game::new(test_config(), &mut rng);
    // tick 0 spawns the piece; hold left from tick 1 on
    game.update(Controller::default(), &mut rng);
    let mut moved_at = Vec::new();
    for tick in 1..25u32 {
        let events = game.update(held(|c| c.left = true), &mut rng);
        if events.iter().any(|e| matches!(e, Event::PieceMoved)) {
            moved_at.push(tick);
        }
    }
    // immediate shift on the press, auto-shift once the 12-tick delay has
    // elapsed, then one shift every second tick with auto_repeat_rate = 1,
    // until the piece reaches the wall after four shifts from column 4
    assert_eq!(moved_at, vec![1, 14, 16, 18]);
}

#[test]
fn move_reset_locks_after_fifteen_moves() {
    let mut config = test_config();
    config.gravity = 1; // the piece reaches the floor on its first tick
    let mut rng = Pcg64Mcg::from_seed([3; 16]);
    let mut game = Game::new(config, &mut rng);
    game.update(Controller::default(), &mut rng); // spawn
    game.update(Controller::default(), &mut rng); // fall to the floor
    let mut rotations = 0u32;
    let mut locked_after = None;
    // leave one tick so the new-lowest-row bookkeeping has already run
    for tick in 0..40u32 {
        let press = tick % 2 == 1;
        let events = game.update(held(|c| c.rotate_right = press), &mut rng);
        rotations += events.iter().filter(|e| matches!(e, Event::PieceRotated)).count() as u32;
        if events.iter().any(|e| matches!(e, Event::PiecePlaced { .. })) {
            locked_after = Some(rotations);
            break;
        }
    }
    // the fifteenth rotation forces the lock on the same tick
    assert_eq!(locked_after, Some(15));
}

fn falling_y(game: &Game) -> Option<i32> {
    match &game.state {
        GameState::Falling(f) => Some(f.piece.y),
        _ => None,
    }
}

#[test]
fn gravity_accumulator_cadence() {
    let mut config = test_config();
    config.gravity = 450;
    let mut rng = Pcg64Mcg::from_seed([9; 16]);
    let mut game = Game::new(config, &mut rng);
    game.update(Controller::default(), &mut rng); // spawn at row 19
    let mut drops = Vec::new();
    for tick in 1..16u32 {
        let before = falling_y(&game).unwrap();
        game.update(Controller::default(), &mut rng);
        let after = falling_y(&game).unwrap();
        if after != before {
            drops.push((tick, before - after));
        }
    }
    // 450 hundredths of a tick per cell: cells fall on ticks 5, 10 and 14,
    // the accumulator carrying the remainder across ticks
    assert_eq!(drops, vec![(5, 1), (10, 1), (14, 1)]);
}

#[test]
fn gravity_many_cells_in_one_tick() {
    let mut config = test_config();
    config.gravity = 30;
    let mut rng = Pcg64Mcg::from_seed([9; 16]);
    let mut game = Game::new(config, &mut rng);
    game.update(Controller::default(), &mut rng); // spawn at row 19
    assert_eq!(falling_y(&game), Some(19));
    game.update(Controller::default(), &mut rng);
    // one tick pays off three whole 30-hundredth periods
    assert_eq!(falling_y(&game), Some(16));
}

#[test]
fn garbage_reconciliation_nets_attack() {
    assert_eq!(reconcile(5, 3), (2, 0));
    assert_eq!(reconcile(2, 5), (0, 3));

    let mut rng = Pcg64Mcg::from_seed([1; 16]);
    let mut game = Game::new(test_config(), &mut rng);
    game.attacking = 5;
    game.garbage_queue = 3;
    let mut events = Vec::new();
    game.deal_garbage(&mut events, &mut rng);
    assert_eq!(game.garbage_queue, 0);
    assert_eq!(game.attacking, 0);
    assert_eq!(events, vec![Event::GarbageSent(2)]);
}

#[test]
fn garbage_reconciliation_keeps_queue_remainder() {
    let mut rng = Pcg64Mcg::from_seed([1; 16]);
    let mut game = Game::new(test_config(), &mut rng);
    game.attacking = 2;
    game.garbage_queue = 5;
    let mut events = Vec::new();
    game.deal_garbage(&mut events, &mut rng);
    // 3 rows survive the cancellation and are injected at once
    assert_eq!(game.garbage_queue, 0);
    assert_eq!(game.attacking, 0);
    match &events[0] {
        Event::GarbageAdded(cols) => assert_eq!(cols.len(), 3),
        other => panic!("expected GarbageAdded, got {:?}", other),
    }
}

#[test]
fn garbage_column_stream() {
    let mut rng = Pcg64Mcg::from_seed([5; 16]);
    let mut game = Game::new(test_config(), &mut rng);
    game.garbage_queue = 10;
    let mut events = Vec::new();
    game.deal_garbage(&mut events, &mut rng);
    let cols = match &events[0] {
        Event::GarbageAdded(cols) => cols.clone(),
        other => panic!("expected GarbageAdded, got {:?}", other),
    };
    assert_eq!(cols.len(), 10);
    assert!(cols.iter().all(|&c| c < 10));
    assert_eq!(game.garbage_queue, 0);

    // the stream is a function of the generator state alone
    let mut rng2 = Pcg64Mcg::from_seed([5; 16]);
    let mut game2 = Game::new(test_config(), &mut rng2);
    game2.garbage_queue = 10;
    let mut events2 = Vec::new();
    game2.deal_garbage(&mut events2, &mut rng2);
    assert_eq!(events, events2);
}

#[test]
fn hard_drop_locks_within_one_tick() {
    let mut rng = Pcg64Mcg::from_seed([2; 16]);
    let mut game = Game::new(test_config(), &mut rng);
    game.update(Controller::default(), &mut rng); // spawn at row 19
    let events = game.update(held(|c| c.hard_drop = true), &mut rng);
    let placed = events.iter().find_map(|e| match e {
        Event::PiecePlaced { hard_drop_distance, .. } => Some(*hard_drop_distance),
        _ => None,
    });
    // the drop distance is the full spawn height
    assert_eq!(placed, Some(Some(19)));
    assert!(matches!(game.state, GameState::SpawnDelay(_)));
}

#[test]
fn hold_swaps_pieces() {
    let mut rng = Pcg64Mcg::from_seed([4; 16]);
    let mut game = Game::new(test_config(), &mut rng);
    game.update(Controller::default(), &mut rng); // spawn the first piece
    let first_kind = match &game.state {
        GameState::Falling(f) => f.piece.kind,
        _ => panic!("expected a falling piece"),
    };
    // first hold: the slot is empty, so the game returns to spawn delay
    let events = game.update(held(|c| c.hold = true), &mut rng);
    assert!(matches!(events[0], Event::PieceHeld(k) if k == first_kind));
    assert!(matches!(game.state, GameState::SpawnDelay(_)));
    // hold stays consumed until a piece locks
    game.update(Controller::default(), &mut rng); // spawn the second piece
    game.update(held(|c| c.hard_drop = true), &mut rng); // lock it
    game.update(Controller::default(), &mut rng); // spawn the third piece
    // holding again swaps the first piece back out of the slot
    let events = game.update(held(|c| c.hold = true), &mut rng);
    assert!(matches!(events[0], Event::PieceHeld(_)));
    match &game.state {
        GameState::Falling(f) => assert_eq!(f.piece.kind, first_kind),
        _ => panic!("expected the held piece to spawn"),
    }
}

#[test]
fn battle_deterministic_replay() {
    let config = GameConfig::default();
    let p1_seed = [11u8; 16];
    let p2_seed = [22u8; 16];
    let mut a = Battle::new(config, p1_seed, p2_seed);
    let mut b = Battle::new(config, p1_seed, p2_seed);
    for tick in 0..300u32 {
        let p1 = held(|c| {
            c.left = tick % 3 == 0;
            c.rotate_right = tick % 5 == 0;
            c.hard_drop = tick % 17 == 0;
            c.soft_drop = tick % 7 < 2;
        });
        let p2 = held(|c| {
            c.right = tick % 4 == 0;
            c.rotate_left = tick % 6 == 0;
            c.hard_drop = tick % 13 == 0;
            c.hold = tick % 31 == 0;
        });
        let ra = a.update(p1, p2);
        let rb = b.update(p1, p2);
        assert_eq!(ra.player_1.events, rb.player_1.events);
        assert_eq!(ra.player_2.events, rb.player_2.events);
        assert_eq!(ra.player_1.garbage_queue, rb.player_1.garbage_queue);
        assert_eq!(ra.player_2.garbage_queue, rb.player_2.garbage_queue);
        assert_eq!(ra.time, rb.time);
        assert_eq!(ra.attack_multiplier_halves, rb.attack_multiplier_halves);
    }
    assert_eq!(a.time, 300);
    assert_eq!(a.replay.updates.len(), 300);
}

#[test]
fn battle_margin_time_multiplier() {
    let mut config = GameConfig::default();
    config.margin_time = Some(5);
    let mut battle = Battle::new(config, [0; 16], [1; 16]);
    let mut halves = Vec::new();
    for _ in 0..7 {
        let r = battle.update(Controller::default(), Controller::default());
        halves.push(r.attack_multiplier_halves);
    }
    // the multiplier steps up half a point when the margin is reached
    assert_eq!(halves, vec![2, 2, 2, 2, 3, 3, 3]);
}
