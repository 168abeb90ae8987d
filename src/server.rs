//! Server configuration and the per-event handlers of the dispatcher.

use vstd::prelude::*;
use crate::addr::PeerAddr;
use crate::game::{
    bad_payload_prefix, broadcast, join_outcome, message_outcome, move_outcome, outbound_views,
    shoot_outcome, tick_outcome, unicast, Game, GameState, Outbound, OutboundView, COUNTDOWN_MS,
    SHOT_DAMAGE,
};
use crate::messages::{ClientMessage, ServerMessage, ServerMessageView};
use crate::registry::{username_index, JoinError, Registry};
use crate::scalar::{Position, Rotation, Scalar};

verus! {

/// Where the server listens and how many players a match takes.
#[derive(Debug)]
pub struct Server {
    pub host: String,
    pub port: u16,
    pub min_players: u8,
    pub max_players: u8,
}

/// The single message `message` for `addr` alone.
pub fn reply_to(addr: PeerAddr, message: ServerMessage) -> (out: Vec<Outbound>)
    ensures
        outbound_views(out@) == seq![unicast(addr, message@)],
{
    let recipients = vec![addr];
    assert(recipients@ =~= seq![addr]);
    let out = vec![Outbound { recipients, message }];
    assert(outbound_views(out@) =~= seq![unicast(addr, out@[0].message@)]);
    out
}

/// The message `message` for every player registered in `players`.
pub fn broadcast_to(players: &Registry, message: ServerMessage) -> (out: Outbound)
    ensures
        out@ == broadcast(players@, message@),
{
    Outbound { recipients: players.addresses(), message }
}

/// The reply to a datagram that could not be decoded: an `Error` for its
/// sender alone, naming what went wrong.
pub fn bad_payload_reply(addr: PeerAddr, detail: &str) -> (out: Vec<Outbound>)
    ensures
        outbound_views(out@) == seq![
            unicast(addr, ServerMessageView::Error { message: bad_payload_prefix() + detail@ }),
        ],
{
    let mut text = "Bad Payload: ".to_string();
    text.append(detail);
    reply_to(addr, ServerMessage::Error { message: text })
}

impl Server {
    /// A server on `host:port` that starts a match with one player and
    /// takes at most ten.
    pub fn new(host: &str, port: u16) -> (r: Server)
        ensures
            r.host@ == host@,
            r.port == port,
            r.min_players == 1,
            r.max_players == 10,
    {
        Server { host: host.to_string(), port, min_players: 1, max_players: 10 }
    }

    /// Set the number of players that arms the countdown.
    pub fn min_players(&mut self, min: u8) -> (r: &mut Self)
        ensures
            r.min_players == min,
            r.max_players == old(self).max_players,
            r.host@ == old(self).host@,
            r.port == old(self).port,
            *final(self) == *final(r),
    {
        self.min_players = min;
        self
    }

    /// Set the number of players beyond which joins are refused.
    pub fn max_players(&mut self, max: u8) -> (r: &mut Self)
        ensures
            r.max_players == max,
            r.min_players == old(self).min_players,
            r.host@ == old(self).host@,
            r.port == old(self).port,
            *final(self) == *final(r),
    {
        self.max_players = max;
        self
    }

    /// Handle `JoinGame` from `addr` at time `now` (milliseconds).
    pub fn handle_join_game(&self, game: &mut Game, addr: PeerAddr, username: String, now: u64) -> (out: Vec<Outbound>)
        requires
            old(game).wf(),
        ensures
            final(game).wf(),
            (final(game)@, outbound_views(out@)) == join_outcome(
                self.min_players,
                self.max_players,
                old(game)@,
                addr,
                username@,
                now,
            ),
    {
        match game.players.register(addr, username, self.max_players) {
            Err(JoinError::DuplicateUsername) => {
                let message = ServerMessage::JoinGameError { message: "Username already taken".to_string() };
                reply_to(addr, message)
            },
            Err(JoinError::ServerFull) => {
                let message = ServerMessage::JoinGameError { message: "Server is full".to_string() };
                reply_to(addr, message)
            },
            Ok(()) => {
                let count = game.players.len();
                if count >= self.min_players as usize && game.state == GameState::Waiting
                    && game.game_start_time.is_none() {
                    game.game_start_time = Some(now);
                }
                let message = ServerMessage::PlayersInLobby {
                    player_count: count as u32,
                    players: game.players.usernames(),
                };
                let out = vec![Outbound { recipients: game.players.addresses(), message }];
                out
            },
        }
    }

    /// Handle `Move` from `addr`: store the transform and echo it verbatim.
    pub fn handle_move(
        &self,
        game: &mut Game,
        addr: PeerAddr,
        position: Position,
        rotation: Rotation,
        yield_control: Scalar,
    ) -> (out: Vec<Outbound>)
        requires
            old(game).wf(),
        ensures
            final(game).wf(),
            (final(game)@, outbound_views(out@)) == move_outcome(old(game)@, addr, position, rotation, yield_control),
    {
        match game.players.update_transform(addr, position, rotation) {
            Some(i) => {
                let player_id = game.players.player(i).username.clone();
                let message = ServerMessage::PlayerMove { player_id, position, rotation, yield_control };
                let out = vec![broadcast_to(&game.players, message)];
                assert(outbound_views(out@) =~= move_outcome(old(game)@, addr, position, rotation, yield_control).1);
                out
            },
            None => {
                let out: Vec<Outbound> = Vec::new();
                assert(outbound_views(out@) =~= Seq::<OutboundView>::empty());
                out
            },
        }
    }

    /// Handle `ShotPlayer` from `addr` aimed at the player named
    /// `player_to_shoot`.
    pub fn handle_shoot(&self, game: &mut Game, addr: PeerAddr, player_to_shoot: String) -> (out: Vec<Outbound>)
        requires
            old(game).wf(),
        ensures
            final(game).wf(),
            (final(game)@, outbound_views(out@)) == shoot_outcome(old(game)@, addr, player_to_shoot@),
    {
        let ghost g0 = game@;
        let mut out: Vec<Outbound> = Vec::new();
        assert(outbound_views(out@) =~= Seq::<OutboundView>::empty());
        let shooter = match game.players.find_by_addr(addr) {
            Some(i) => game.players.player(i).username.clone(),
            None => return out,
        };
        let health = match game.players.apply_damage(&player_to_shoot, SHOT_DAMAGE) {
            Some(h) => h,
            None => return out,
        };
        let ghost t = username_index(g0.players, player_to_shoot@);
        let ghost players = game.players@;
        assert(players[t].1.health == health);
        let update = ServerMessage::HealthUpdate { player_id: player_to_shoot.clone(), health };
        out.push(broadcast_to(&game.players, update));
        if health == 0 {
            let death = ServerMessage::PlayerDeath { player_id: player_to_shoot, killer_id: Some(shooter) };
            out.push(broadcast_to(&game.players, death));
        }
        if game.state != GameState::Finished {
            match game.players.sole_survivor() {
                Some(w) => {
                    let winner = game.players.player(w).username.clone();
                    out.push(broadcast_to(&game.players, ServerMessage::GameOver { winner }));
                    game.state = GameState::Finished;
                },
                None => {},
            }
        }
        assert(outbound_views(out@) =~= shoot_outcome(g0, addr, player_to_shoot@).1);
        out
    }

    /// Advance the countdown at time `now` (milliseconds); start the match
    /// once it has run out.
    pub fn tick(&self, game: &mut Game, now: u64) -> (out: Vec<Outbound>)
        requires
            old(game).wf(),
        ensures
            final(game).wf(),
            (final(game)@, outbound_views(out@)) == tick_outcome(self.min_players, old(game)@, now),
    {
        let mut out: Vec<Outbound> = Vec::new();
        assert(outbound_views(out@) =~= Seq::<OutboundView>::empty());
        if game.state != GameState::Waiting {
            return out;
        }
        if game.players.len() >= self.min_players as usize {
            if game.game_start_time.is_none() {
                game.game_start_time = Some(now);
            }
        } else {
            game.game_start_time = None;
        }
        match game.game_start_time {
            Some(t) => {
                if now >= t && now - t >= COUNTDOWN_MS {
                    game.state = GameState::InProgress;
                    let message = ServerMessage::GameStart { maze_level: game.maze_level };
                    out.push(broadcast_to(&game.players, message));
                    assert(outbound_views(out@) =~= tick_outcome(self.min_players, old(game)@, now).1);
                }
            },
            None => {},
        }
        out
    }

    /// Route a decoded client message from `addr`, received at `now`.
    pub fn handle_message(&self, game: &mut Game, addr: PeerAddr, message: ClientMessage, now: u64) -> (out: Vec<Outbound>)
        requires
            old(game).wf(),
        ensures
            final(game).wf(),
            (final(game)@, outbound_views(out@)) == message_outcome(
                self.min_players,
                self.max_players,
                old(game)@,
                addr,
                message@,
                now,
            ),
    {
        match message {
            ClientMessage::JoinGame { username } => self.handle_join_game(game, addr, username, now),
            ClientMessage::Move { position, rotation, yield_control } => self.handle_move(
                game,
                addr,
                position,
                rotation,
                yield_control,
            ),
            ClientMessage::ShotPlayer { player_username } => self.handle_shoot(game, addr, player_username),
        }
    }
}

} // verus!
