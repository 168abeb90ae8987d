//! The wire protocol: what clients send and what the server answers.
//!
//! Each message is a tagged variant sent as one datagram. Encoding is left to
//! the transport; these types are what the match logic reads and writes.

use vstd::prelude::*;
use crate::scalar::{Position, Rotation, Scalar};

verus! {

/// Client to server.
#[derive(Debug)]
pub enum ClientMessage {
    JoinGame { username: String },
    Move { position: Position, rotation: Rotation, yield_control: Scalar },
    ShotPlayer { player_username: String },
}

pub ghost enum ClientMessageView {
    JoinGame { username: Seq<char> },
    Move { position: Position, rotation: Rotation, yield_control: Scalar },
    ShotPlayer { player_username: Seq<char> },
}

impl View for ClientMessage {
    type V = ClientMessageView;

    open spec fn view(&self) -> ClientMessageView {
        match self {
            ClientMessage::JoinGame { username } => ClientMessageView::JoinGame {
                username: username@,
            },
            ClientMessage::Move { position, rotation, yield_control } => ClientMessageView::Move {
                position: *position,
                rotation: *rotation,
                yield_control: *yield_control,
            },
            ClientMessage::ShotPlayer { player_username } => ClientMessageView::ShotPlayer {
                player_username: player_username@,
            },
        }
    }
}

/// Server to client.
#[derive(Debug)]
pub enum ServerMessage {
    Error { message: String },
    JoinGameError { message: String },
    PlayersInLobby { player_count: u32, players: Vec<String> },
    GameStart { maze_level: u8 },
    PlayerMove { player_id: String, position: Position, rotation: Rotation, yield_control: Scalar },
    PlayerDeath { player_id: String, killer_id: Option<String> },
    PlayerSpawn { player_id: String, position: Position },
    HealthUpdate { player_id: String, health: u32 },
    GameOver { winner: String },
}

pub ghost enum ServerMessageView {
    Error { message: Seq<char> },
    JoinGameError { message: Seq<char> },
    PlayersInLobby { player_count: u32, players: Seq<Seq<char>> },
    GameStart { maze_level: u8 },
    PlayerMove {
        player_id: Seq<char>,
        position: Position,
        rotation: Rotation,
        yield_control: Scalar,
    },
    PlayerDeath { player_id: Seq<char>, killer_id: Option<Seq<char>> },
    PlayerSpawn { player_id: Seq<char>, position: Position },
    HealthUpdate { player_id: Seq<char>, health: u32 },
    GameOver { winner: Seq<char> },
}

/// The views of a list of strings.
pub open spec fn string_views(v: Seq<String>) -> Seq<Seq<char>> {
    v.map_values(|s: String| s@)
}

pub open spec fn option_string_view(o: Option<String>) -> Option<Seq<char>> {
    match o {
        Some(s) => Some(s@),
        None => None,
    }
}

impl View for ServerMessage {
    type V = ServerMessageView;

    open spec fn view(&self) -> ServerMessageView {
        match self {
            ServerMessage::Error { message } => ServerMessageView::Error { message: message@ },
            ServerMessage::JoinGameError { message } => ServerMessageView::JoinGameError {
                message: message@,
            },
            ServerMessage::PlayersInLobby { player_count, players } =>
                ServerMessageView::PlayersInLobby {
                    player_count: *player_count,
                    players: string_views(players@),
                },
            ServerMessage::GameStart { maze_level } => ServerMessageView::GameStart {
                maze_level: *maze_level,
            },
            ServerMessage::PlayerMove { player_id, position, rotation, yield_control } =>
                ServerMessageView::PlayerMove {
                    player_id: player_id@,
                    position: *position,
                    rotation: *rotation,
                    yield_control: *yield_control,
                },
            ServerMessage::PlayerDeath { player_id, killer_id } => ServerMessageView::PlayerDeath {
                player_id: player_id@,
                killer_id: option_string_view(*killer_id),
            },
            ServerMessage::PlayerSpawn { player_id, position } => ServerMessageView::PlayerSpawn {
                player_id: player_id@,
                position: *position,
            },
            ServerMessage::HealthUpdate { player_id, health } => ServerMessageView::HealthUpdate {
                player_id: player_id@,
                health: *health,
            },
            ServerMessage::GameOver { winner } => ServerMessageView::GameOver { winner: winner@ },
        }
    }
}

} // verus!
