//! The match: registry plus lifecycle state, and the server's handlers.
//!
//! A match goes `Waiting` (with or without an armed countdown) to
//! `InProgress` to `Finished`, never backwards. Every handler is one step: it
//! takes the match and an event, updates the match, and returns the messages
//! to send, each with its recipients taken from the registry at that moment.

use vstd::prelude::*;
use rand::Rng;
use crate::addr::PeerAddr;
use crate::messages::{ClientMessageView, ServerMessage, ServerMessageView};
use crate::player::fresh_player;
use crate::registry::{
    addr_index, addrs, alive_names, damaged, has_addr, has_username, moved, names, upsert,
    username_index, Registry, Roster,
};
use crate::scalar::{Position, Rotation, Scalar};

verus! {

/// How long the countdown runs once enough players are in, in milliseconds.
pub const COUNTDOWN_MS: u64 = 5000;

/// Health a hit takes away.
pub const SHOT_DAMAGE: u32 = 10;

/// Number of maze levels a match can be played on.
pub const LEVEL_COUNT: u8 = 3;

/// Lifecycle of a match.
#[derive(Clone, Copy, Debug, PartialEq, Eq, Structural)]
pub enum GameState {
    Waiting,
    InProgress,
    Finished,
}

/// A match: its players, its state, the instant (in milliseconds) its
/// countdown was armed, and the level it is played on.
#[derive(Debug)]
pub struct Game {
    pub players: Registry,
    pub state: GameState,
    pub game_start_time: Option<u64>,
    pub maze_level: u8,
}

pub ghost struct GameView {
    pub players: Roster,
    pub state: GameState,
    pub start: Option<u64>,
    pub maze_level: u8,
}

impl View for Game {
    type V = GameView;

    open spec fn view(&self) -> GameView {
        GameView {
            players: self.players@,
            state: self.state,
            start: self.game_start_time,
            maze_level: self.maze_level,
        }
    }
}

/// Relies on rand's `gen_range` over `0..bound`, which returns a value in
/// that range and panics only when the range is empty.
#[verifier::external_body]
pub(crate) fn draw_below(bound: u8) -> (r: u8)
    requires
        bound > 0,
    ensures
        r < bound,
{
    rand::thread_rng().gen_range(0..bound)
}

impl Game {
    pub open spec fn wf(&self) -> bool {
        self.players.wf()
    }

    /// A match in the lobby with no players, on a level picked at random
    /// among the available ones.
    pub fn new() -> (r: Game)
        ensures
            r.wf(),
            r@.players.len() == 0,
            r@.state == GameState::Waiting,
            r@.start is None,
            1 <= r@.maze_level <= LEVEL_COUNT,
    {
        let level = draw_below(LEVEL_COUNT) + 1;
        Game::with_level(level)
    }

    /// A match in the lobby with no players, on the given level.
    pub fn with_level(maze_level: u8) -> (r: Game)
        ensures
            r.wf(),
            r@ == (GameView {
                players: Seq::empty(),
                state: GameState::Waiting,
                start: None,
                maze_level,
            }),
    {
        Game {
            players: Registry::new(),
            state: GameState::Waiting,
            game_start_time: None,
            maze_level,
        }
    }
}

/// One message and the addresses it goes to.
#[derive(Debug)]
pub struct Outbound {
    pub recipients: Vec<PeerAddr>,
    pub message: ServerMessage,
}

pub ghost struct OutboundView {
    pub recipients: Seq<PeerAddr>,
    pub message: ServerMessageView,
}

impl View for Outbound {
    type V = OutboundView;

    open spec fn view(&self) -> OutboundView {
        OutboundView { recipients: self.recipients@, message: self.message@ }
    }
}

pub open spec fn outbound_views(v: Seq<Outbound>) -> Seq<OutboundView> {
    v.map_values(|o: Outbound| o@)
}

/// A message for every registered player.
pub open spec fn broadcast(r: Roster, message: ServerMessageView) -> OutboundView {
    OutboundView { recipients: addrs(r), message }
}

/// A message for one address.
pub open spec fn unicast(a: PeerAddr, message: ServerMessageView) -> OutboundView {
    OutboundView { recipients: seq![a], message }
}

pub open spec fn username_taken_text() -> Seq<char> {
    "Username already taken"@
}

pub open spec fn server_full_text() -> Seq<char> {
    "Server is full"@
}

pub open spec fn bad_payload_prefix() -> Seq<char> {
    "Bad Payload: "@
}

/// The lobby announcement for a roster.
pub open spec fn lobby_message(r: Roster) -> ServerMessageView {
    ServerMessageView::PlayersInLobby { player_count: r.len() as u32, players: names(r) }
}

/// What a `JoinGame` does: refuse a taken name, then a full match; otherwise
/// register the player, arm the countdown when the minimum is first met, and
/// announce the lobby to everyone.
pub open spec fn join_outcome(
    min_players: u8,
    max_players: u8,
    g: GameView,
    addr: PeerAddr,
    username: Seq<char>,
    now: u64,
) -> (GameView, Seq<OutboundView>) {
    if has_username(g.players, username) {
        (g, seq![unicast(addr, ServerMessageView::JoinGameError { message: username_taken_text() })])
    } else if g.players.len() >= max_players {
        (g, seq![unicast(addr, ServerMessageView::JoinGameError { message: server_full_text() })])
    } else {
        let players = upsert(g.players, addr, fresh_player(username));
        let arm = players.len() >= min_players && g.state == GameState::Waiting && g.start is None;
        let start = if arm {
            Some(now)
        } else {
            g.start
        };
        (GameView { players, start, ..g }, seq![broadcast(players, lobby_message(players))])
    }
}

/// What a `Move` does: from a registered address, store the transform and
/// echo it to everyone; from any other, nothing.
pub open spec fn move_outcome(
    g: GameView,
    addr: PeerAddr,
    position: Position,
    rotation: Rotation,
    yield_control: Scalar,
) -> (GameView, Seq<OutboundView>) {
    if has_addr(g.players, addr) {
        let i = addr_index(g.players, addr);
        let players = moved(g.players, i, position, rotation);
        let echo = ServerMessageView::PlayerMove {
            player_id: players[i].1.username,
            position,
            rotation,
            yield_control,
        };
        (GameView { players, ..g }, seq![broadcast(players, echo)])
    } else {
        (g, Seq::empty())
    }
}

/// Whether a shot from `addr` at `target` is resolved at all: both the
/// shooter's address and the target's name must be registered.
pub open spec fn shot_lands(g: GameView, addr: PeerAddr, target: Seq<char>) -> bool {
    has_addr(g.players, addr) && has_username(g.players, target)
}

/// What a `ShotPlayer` does: damage the target, announce its health, announce
/// its death at zero, and end the match when exactly one player is left
/// above zero health.
pub open spec fn shoot_outcome(g: GameView, addr: PeerAddr, target: Seq<char>) -> (GameView, Seq<OutboundView>) {
    if !shot_lands(g, addr, target) {
        (g, Seq::empty())
    } else {
        let shooter = g.players[addr_index(g.players, addr)].1.username;
        let t = username_index(g.players, target);
        let players = damaged(g.players, t, SHOT_DAMAGE);
        let health = players[t].1.health;
        let update = broadcast(players, ServerMessageView::HealthUpdate { player_id: target, health });
        let death = if health == 0 {
            seq![broadcast(players, ServerMessageView::PlayerDeath { player_id: target, killer_id: Some(shooter) })]
        } else {
            Seq::empty()
        };
        let victory = g.state != GameState::Finished && alive_names(players).len() == 1;
        let over = if victory {
            seq![broadcast(players, ServerMessageView::GameOver { winner: alive_names(players)[0] })]
        } else {
            Seq::empty()
        };
        let state = if victory {
            GameState::Finished
        } else {
            g.state
        };
        (GameView { players, state, ..g }, seq![update] + death + over)
    }
}

/// The countdown after one tick: armed while the minimum is met, disarmed
/// below it.
pub open spec fn ticked_start(min_players: u8, g: GameView, now: u64) -> Option<u64> {
    if g.players.len() >= min_players {
        if g.start is None {
            Some(now)
        } else {
            g.start
        }
    } else {
        None
    }
}

/// Whether the countdown armed at `start` has run out at `now`.
pub open spec fn countdown_elapsed(start: Option<u64>, now: u64) -> bool {
    match start {
        Some(t) => now >= t + COUNTDOWN_MS,
        None => false,
    }
}

/// What a tick of the countdown does while the match waits: re-arm or
/// disarm the countdown, and start the match once it has run out.
pub open spec fn tick_outcome(min_players: u8, g: GameView, now: u64) -> (GameView, Seq<OutboundView>) {
    if g.state != GameState::Waiting {
        (g, Seq::empty())
    } else {
        let start = ticked_start(min_players, g, now);
        if countdown_elapsed(start, now) {
            (
                GameView { state: GameState::InProgress, start, ..g },
                seq![broadcast(g.players, ServerMessageView::GameStart { maze_level: g.maze_level })],
            )
        } else {
            (GameView { start, ..g }, Seq::empty())
        }
    }
}

/// What any client message does.
pub open spec fn message_outcome(
    min_players: u8,
    max_players: u8,
    g: GameView,
    addr: PeerAddr,
    m: ClientMessageView,
    now: u64,
) -> (GameView, Seq<OutboundView>) {
    match m {
        ClientMessageView::JoinGame { username } => join_outcome(min_players, max_players, g, addr, username, now),
        ClientMessageView::Move { position, rotation, yield_control } => move_outcome(g, addr, position, rotation, yield_control),
        ClientMessageView::ShotPlayer { player_username } => shoot_outcome(g, addr, player_username),
    }
}

} // verus!
