use maze_wars::addr::{IpAddress, PeerAddr};
use maze_wars::game::{Game, GameState, Outbound};
use maze_wars::messages::{ClientMessage, ServerMessage};
use maze_wars::scalar::{Position, Rotation, Scalar};
use maze_wars::server::{bad_payload_reply, Server};

fn peer(n: u16) -> PeerAddr {
    PeerAddr::new(IpAddress::V4(0x7f00_0001), 40000 + n)
}

fn server(min: u8, max: u8) -> Server {
    let mut s = Server::new("0.0.0.0", 2025);
    s.min_players(min).max_players(max);
    s
}

fn join(s: &Server, g: &mut Game, n: u16, name: &str, now: u64) -> Vec<Outbound> {
    s.handle_join_game(g, peer(n), name.to_string(), now)
}

fn shoot(s: &Server, g: &mut Game, n: u16, target: &str) -> Vec<Outbound> {
    s.handle_shoot(g, peer(n), target.to_string())
}

fn f(v: f32) -> Scalar {
    Scalar::from_bits(v.to_bits())
}

#[test]
fn server_defaults_and_builders() {
    let s = Server::new("127.0.0.1", 8080);
    assert_eq!(s.host, "127.0.0.1");
    assert_eq!(s.port, 8080);
    assert_eq!(s.min_players, 1);
    assert_eq!(s.max_players, 10);
    let t = server(2, 16);
    assert_eq!(t.min_players, 2);
    assert_eq!(t.max_players, 16);
}

#[test]
fn new_game_picks_a_level_between_one_and_three() {
    for _ in 0..20 {
        let g = Game::new();
        assert!(g.maze_level >= 1 && g.maze_level <= 3);
        assert_eq!(g.state, GameState::Waiting);
        assert_eq!(g.game_start_time, None);
        assert_eq!(g.players.len(), 0);
    }
}

#[test]
fn distinct_joins_up_to_max_all_succeed() {
    let s = server(2, 4);
    let mut g = Game::with_level(1);
    let names = ["alice", "bob", "carol", "dave"];
    for (i, name) in names.iter().enumerate() {
        let out = join(&s, &mut g, i as u16, name, 0);
        assert_eq!(out.len(), 1);
        assert_eq!(g.players.len(), i + 1);
        assert_eq!(out[0].recipients.len(), i + 1);
        match &out[0].message {
            ServerMessage::PlayersInLobby { player_count, players } => {
                assert_eq!(*player_count as usize, g.players.len());
                let expected: Vec<String> = names[..=i].iter().map(|n| n.to_string()).collect();
                assert_eq!(players, &expected);
            }
            other => panic!("unexpected {:?}", other),
        }
    }
}

#[test]
fn duplicate_username_is_refused() {
    let s = server(2, 10);
    let mut g = Game::with_level(1);
    join(&s, &mut g, 1, "alice", 0);
    let out = join(&s, &mut g, 2, "alice", 0);
    assert_eq!(g.players.len(), 1);
    assert_eq!(out.len(), 1);
    assert_eq!(out[0].recipients, vec![peer(2)]);
    match &out[0].message {
        ServerMessage::JoinGameError { message } => assert_eq!(message, "Username already taken"),
        other => panic!("unexpected {:?}", other),
    }
}

#[test]
fn full_match_refuses_any_username() {
    let s = server(1, 2);
    let mut g = Game::with_level(1);
    join(&s, &mut g, 1, "alice", 0);
    join(&s, &mut g, 2, "bob", 0);
    let out = join(&s, &mut g, 3, "carol", 0);
    assert_eq!(g.players.len(), 2);
    assert_eq!(out[0].recipients, vec![peer(3)]);
    match &out[0].message {
        ServerMessage::JoinGameError { message } => assert_eq!(message, "Server is full"),
        other => panic!("unexpected {:?}", other),
    }
    let dup = join(&s, &mut g, 3, "alice", 0);
    match &dup[0].message {
        ServerMessage::JoinGameError { message } => assert_eq!(message, "Username already taken"),
        other => panic!("unexpected {:?}", other),
    }
}

#[test]
fn rejoin_from_same_address_replaces_entry() {
    let s = server(5, 10);
    let mut g = Game::with_level(1);
    join(&s, &mut g, 1, "alice", 0);
    let out = join(&s, &mut g, 1, "alicia", 0);
    assert_eq!(g.players.len(), 1);
    assert_eq!(g.players.player(0).username, "alicia");
    match &out[0].message {
        ServerMessage::PlayersInLobby { player_count, .. } => assert_eq!(*player_count, 1),
        other => panic!("unexpected {:?}", other),
    }
}

#[test]
fn game_starts_five_seconds_after_minimum_is_met() {
    let s = server(2, 10);
    let mut g = Game::with_level(2);
    join(&s, &mut g, 1, "alice", 1000);
    assert_eq!(g.game_start_time, None);
    join(&s, &mut g, 2, "bob", 2000);
    assert_eq!(g.game_start_time, Some(2000));
    assert!(s.tick(&mut g, 3000).is_empty());
    assert!(s.tick(&mut g, 6999).is_empty());
    assert_eq!(g.state, GameState::Waiting);
    let out = s.tick(&mut g, 7000);
    assert_eq!(g.state, GameState::InProgress);
    assert_eq!(out.len(), 1);
    assert_eq!(out[0].recipients, vec![peer(1), peer(2)]);
    match &out[0].message {
        ServerMessage::GameStart { maze_level } => assert_eq!(*maze_level, 2),
        other => panic!("unexpected {:?}", other),
    }
    assert!(s.tick(&mut g, 20000).is_empty());
}

#[test]
fn tick_arms_countdown_when_join_did_not() {
    let s = server(1, 10);
    let mut g = Game::with_level(1);
    g.players.register(peer(1), "alice".to_string(), 10).unwrap();
    assert!(s.tick(&mut g, 500).is_empty());
    assert_eq!(g.game_start_time, Some(500));
    assert!(s.tick(&mut g, 5499).is_empty());
    assert_eq!(s.tick(&mut g, 5500).len(), 1);
}

#[test]
fn countdown_restarts_after_dropping_below_minimum() {
    let s = server(2, 10);
    let mut g = Game::with_level(1);
    join(&s, &mut g, 1, "alice", 0);
    join(&s, &mut g, 2, "bob", 0);
    assert_eq!(g.game_start_time, Some(0));
    assert!(g.players.remove(peer(2)).is_some());
    assert!(s.tick(&mut g, 1000).is_empty());
    assert_eq!(g.game_start_time, None);
    join(&s, &mut g, 3, "carol", 3000);
    assert_eq!(g.game_start_time, Some(3000));
    assert!(s.tick(&mut g, 5000).is_empty());
    assert!(s.tick(&mut g, 7999).is_empty());
    assert_eq!(g.state, GameState::Waiting);
    assert_eq!(s.tick(&mut g, 8000).len(), 1);
    assert_eq!(g.state, GameState::InProgress);
}

#[test]
fn damage_saturates_at_zero_with_one_death() {
    let s = server(1, 10);
    let mut g = Game::with_level(1);
    join(&s, &mut g, 1, "alice", 0);
    join(&s, &mut g, 2, "bob", 0);
    join(&s, &mut g, 3, "carol", 0);
    assert_eq!(g.players.apply_damage(&"bob".to_string(), 95), Some(5));
    let out = shoot(&s, &mut g, 1, "bob");
    assert_eq!(g.players.player(1).health, 0);
    let deaths: Vec<&Outbound> = out
        .iter()
        .filter(|o| matches!(o.message, ServerMessage::PlayerDeath { .. }))
        .collect();
    assert_eq!(deaths.len(), 1);
    match &deaths[0].message {
        ServerMessage::PlayerDeath { player_id, killer_id } => {
            assert_eq!(player_id, "bob");
            assert_eq!(killer_id.as_deref(), Some("alice"));
        }
        _ => unreachable!(),
    }
    match &out[0].message {
        ServerMessage::HealthUpdate { player_id, health } => {
            assert_eq!(player_id, "bob");
            assert_eq!(*health, 0);
        }
        other => panic!("unexpected {:?}", other),
    }
}

#[test]
fn registry_apply_damage_saturates() {
    let mut g = Game::with_level(1);
    g.players.register(peer(1), "alice".to_string(), 10).unwrap();
    assert_eq!(g.players.apply_damage(&"alice".to_string(), 95), Some(5));
    assert_eq!(g.players.apply_damage(&"alice".to_string(), 10), Some(0));
    assert_eq!(g.players.apply_damage(&"alice".to_string(), 10), Some(0));
    assert_eq!(g.players.apply_damage(&"nobody".to_string(), 10), None);
}

#[test]
fn last_survivor_gets_single_game_over() {
    let s = server(1, 10);
    let mut g = Game::with_level(1);
    join(&s, &mut g, 1, "alice", 0);
    join(&s, &mut g, 2, "bob", 0);
    join(&s, &mut g, 3, "carol", 0);
    let mut game_overs = Vec::new();
    for target in ["bob", "carol"] {
        for _ in 0..10 {
            for o in shoot(&s, &mut g, 1, target) {
                if let ServerMessage::GameOver { winner } = o.message {
                    game_overs.push(winner);
                }
            }
        }
    }
    assert_eq!(game_overs, vec!["alice".to_string()]);
    assert_eq!(g.state, GameState::Finished);
    let again = shoot(&s, &mut g, 1, "bob");
    assert!(again.iter().all(|o| !matches!(o.message, ServerMessage::GameOver { .. })));
    assert_eq!(g.state, GameState::Finished);
}

#[test]
fn move_is_echoed_verbatim() {
    let s = server(1, 10);
    let mut g = Game::with_level(1);
    join(&s, &mut g, 1, "alice", 0);
    join(&s, &mut g, 2, "bob", 0);
    let p = Position::new(f(10.0), f(5.0), f(-2.5));
    let r = Rotation::new(f(90.0), f(45.0), f(f32::NAN));
    let out = s.handle_move(&mut g, peer(2), p, r, f(0.5));
    assert_eq!(out.len(), 1);
    assert_eq!(out[0].recipients, vec![peer(1), peer(2)]);
    match &out[0].message {
        ServerMessage::PlayerMove { player_id, position, rotation, yield_control } => {
            assert_eq!(player_id, "bob");
            assert_eq!(*position, p);
            assert_eq!(*rotation, r);
            assert_eq!(yield_control.to_bits(), 0.5f32.to_bits());
        }
        other => panic!("unexpected {:?}", other),
    }
    assert_eq!(g.players.player(1).position, p);
    assert_eq!(g.players.player(1).rotation, r);
}

#[test]
fn unregistered_sender_is_ignored() {
    let s = server(1, 10);
    let mut g = Game::with_level(1);
    join(&s, &mut g, 1, "alice", 0);
    let p = Position::new(f(1.0), f(2.0), f(3.0));
    let out = s.handle_move(&mut g, peer(9), p, Rotation::default(), f(0.0));
    assert!(out.is_empty());
    assert_eq!(g.players.player(0).position, Position::default());
    let out = shoot(&s, &mut g, 9, "alice");
    assert!(out.is_empty());
    assert_eq!(g.players.player(0).health, 100);
}

#[test]
fn shot_at_unknown_target_is_ignored() {
    let s = server(1, 10);
    let mut g = Game::with_level(1);
    join(&s, &mut g, 1, "alice", 0);
    assert!(shoot(&s, &mut g, 1, "ghost").is_empty());
    assert_eq!(g.players.player(0).health, 100);
}

#[test]
fn alice_beats_bob_in_ten_shots() {
    let s = server(2, 10);
    let mut g = Game::with_level(3);
    join(&s, &mut g, 1, "alice", 0);
    join(&s, &mut g, 2, "bob", 0);
    let start = s.tick(&mut g, 5000);
    assert_eq!(start[0].recipients, vec![peer(1), peer(2)]);
    assert!(matches!(start[0].message, ServerMessage::GameStart { maze_level: 3 }));
    for shot in 1..=10u32 {
        let out = shoot(&s, &mut g, 1, "bob");
        match &out[0].message {
            ServerMessage::HealthUpdate { player_id, health } => {
                assert_eq!(player_id, "bob");
                assert_eq!(*health, 100 - 10 * shot);
            }
            other => panic!("unexpected {:?}", other),
        }
        if shot < 10 {
            assert_eq!(out.len(), 1);
        } else {
            assert_eq!(out.len(), 3);
            match &out[1].message {
                ServerMessage::PlayerDeath { player_id, killer_id } => {
                    assert_eq!(player_id, "bob");
                    assert_eq!(killer_id.as_deref(), Some("alice"));
                }
                other => panic!("unexpected {:?}", other),
            }
            match &out[2].message {
                ServerMessage::GameOver { winner } => assert_eq!(winner, "alice"),
                other => panic!("unexpected {:?}", other),
            }
            assert_eq!(out[2].recipients, vec![peer(1), peer(2)]);
        }
    }
    assert_eq!(g.state, GameState::Finished);
}

#[test]
fn dispatch_routes_each_message_kind() {
    let s = server(1, 10);
    let mut g = Game::with_level(1);
    let out = s.handle_message(&mut g, peer(1), ClientMessage::JoinGame { username: "alice".to_string() }, 0);
    assert!(matches!(out[0].message, ServerMessage::PlayersInLobby { player_count: 1, .. }));
    let mv = ClientMessage::Move {
        position: Position::new(f(1.0), f(1.0), f(0.0)),
        rotation: Rotation::default(),
        yield_control: f(0.5),
    };
    let out = s.handle_message(&mut g, peer(1), mv, 0);
    assert!(matches!(out[0].message, ServerMessage::PlayerMove { .. }));
    let out = s.handle_message(&mut g, peer(1), ClientMessage::ShotPlayer { player_username: "alice".to_string() }, 0);
    assert!(matches!(out[0].message, ServerMessage::HealthUpdate { health: 90, .. }));
}

#[test]
fn bad_payload_reply_names_the_problem() {
    let out = bad_payload_reply(peer(4), "expected value at line 1");
    assert_eq!(out.len(), 1);
    assert_eq!(out[0].recipients, vec![peer(4)]);
    match &out[0].message {
        ServerMessage::Error { message } => assert_eq!(message, "Bad Payload: expected value at line 1"),
        other => panic!("unexpected {:?}", other),
    }
}
