//! The client's side of the protocol: its local mirror of the match, kept
//! from the server's messages, and the gating of what it sends.
//!
//! The mirror maps other players' usernames (a client never learns their
//! addresses) to their last known position and rotation; the last message
//! wins.

use vstd::prelude::*;
use crate::messages::{string_views, ClientMessage, ClientMessageView, ServerMessage, ServerMessageView};
use crate::maze::SPAWN_COUNT;
use crate::player::FULL_HEALTH;
use crate::scalar::{no_rotation, origin, same_position, same_rotation, Position, Rotation, Scalar};

verus! {

/// Bit pattern of 0.5, the `yield_control` a client reports with its moves.
pub const CLIENT_YIELD_BITS: u32 = 0x3F00_0000;

/// Another player as this client last heard of it.
#[derive(Debug)]
pub struct RemotePlayer {
    pub username: String,
    pub position: Position,
    pub rotation: Rotation,
}

pub type MirrorEntry = (Seq<char>, Position, Rotation);

pub type Mirror = Seq<MirrorEntry>;

pub open spec fn mirror_view(v: Seq<RemotePlayer>) -> Mirror {
    v.map_values(|p: RemotePlayer| (p.username@, p.position, p.rotation))
}

pub open spec fn has_remote(m: Mirror, name: Seq<char>) -> bool {
    exists|i: int| 0 <= i < m.len() && #[trigger] m[i].0 == name
}

pub open spec fn remote_index(m: Mirror, name: Seq<char>) -> int {
    choose|i: int| 0 <= i < m.len() && #[trigger] m[i].0 == name
}

pub open spec fn mirror_names_unique(m: Mirror) -> bool {
    forall|i: int, j: int| 0 <= i < m.len() && 0 <= j < m.len() && i != j ==> m[i].0 != m[j].0
}

/// Record a transform for `name`: overwrite its entry, or add one.
pub open spec fn mirror_upsert(m: Mirror, name: Seq<char>, position: Position, rotation: Rotation) -> Mirror {
    if has_remote(m, name) {
        m.update(remote_index(m, name), (name, position, rotation))
    } else {
        m.push((name, position, rotation))
    }
}

/// Forget `name`, keeping the other entries in order.
pub open spec fn mirror_remove(m: Mirror, name: Seq<char>) -> Mirror {
    if has_remote(m, name) {
        m.remove(remote_index(m, name))
    } else {
        m
    }
}

/// What the client should do after a server message, beyond updating its
/// state.
#[derive(Clone, Copy, Debug, PartialEq, Eq, Structural)]
pub enum ClientAction {
    Nothing,
    /// Move to the spawn point with this index of the current level and
    /// report the new position.
    ClaimSpawn { index: usize },
}

/// The client's local state.
#[derive(Debug)]
pub struct ClientSession {
    pub username: String,
    pub running: bool,
    pub game_started: bool,
    pub maze_level: u8,
    pub player_dead: bool,
    pub game_over: bool,
    pub winner_name: String,
    pub spawn_assigned: bool,
    pub player_health: u32,
    pub other_players: Vec<RemotePlayer>,
    pub last_sent_position: Position,
    pub last_sent_rotation: Rotation,
}

pub ghost struct SessionView {
    pub username: Seq<char>,
    pub running: bool,
    pub game_started: bool,
    pub maze_level: u8,
    pub player_dead: bool,
    pub game_over: bool,
    pub winner_name: Seq<char>,
    pub spawn_assigned: bool,
    pub player_health: u32,
    pub others: Mirror,
    pub last_sent_position: Position,
    pub last_sent_rotation: Rotation,
}

impl View for ClientSession {
    type V = SessionView;

    open spec fn view(&self) -> SessionView {
        SessionView {
            username: self.username@,
            running: self.running,
            game_started: self.game_started,
            maze_level: self.maze_level,
            player_dead: self.player_dead,
            game_over: self.game_over,
            winner_name: self.winner_name@,
            spawn_assigned: self.spawn_assigned,
            player_health: self.player_health,
            others: mirror_view(self.other_players@),
            last_sent_position: self.last_sent_position,
            last_sent_rotation: self.last_sent_rotation,
        }
    }
}

/// The first index at which `name` appears in `names`.
pub open spec fn first_index_of(names: Seq<Seq<char>>, name: Seq<char>) -> int {
    choose|i: int| 0 <= i < names.len() && names[i] == name && forall|j: int| 0 <= j < i ==> names[j] != name
}

pub open spec fn listed(names: Seq<Seq<char>>, name: Seq<char>) -> bool {
    exists|i: int| 0 <= i < names.len() && #[trigger] names[i] == name
}

/// Whether a lobby listing gives this client its spawn point now: the match
/// has started, none was given yet, and its name is listed at an index the
/// level has a spawn point for.
pub open spec fn claims_spawn(s: SessionView, players: Seq<Seq<char>>) -> bool {
    &&& !s.spawn_assigned
    &&& s.game_started
    &&& listed(players, s.username)
    &&& first_index_of(players, s.username) < SPAWN_COUNT
}

/// How a server message changes the client's state, and what it should do.
pub open spec fn receive_outcome(s: SessionView, m: ServerMessageView) -> (SessionView, ClientAction) {
    match m {
        ServerMessageView::GameStart { maze_level } => (
            SessionView { game_started: true, maze_level, ..s },
            ClientAction::Nothing,
        ),
        ServerMessageView::HealthUpdate { player_id, health } => if player_id == s.username {
            (SessionView { player_health: health, ..s }, ClientAction::Nothing)
        } else {
            (s, ClientAction::Nothing)
        },
        ServerMessageView::PlayerMove { player_id, position, rotation, .. } => if player_id != s.username {
            (SessionView { others: mirror_upsert(s.others, player_id, position, rotation), ..s }, ClientAction::Nothing)
        } else {
            (s, ClientAction::Nothing)
        },
        ServerMessageView::PlayerSpawn { player_id, position } => if player_id != s.username {
            (
                SessionView { others: mirror_upsert(s.others, player_id, position, no_rotation()), ..s },
                ClientAction::Nothing,
            )
        } else {
            (s, ClientAction::Nothing)
        },
        ServerMessageView::PlayerDeath { player_id, .. } => if player_id == s.username {
            (SessionView { player_dead: true, ..s }, ClientAction::Nothing)
        } else {
            (SessionView { others: mirror_remove(s.others, player_id), ..s }, ClientAction::Nothing)
        },
        ServerMessageView::JoinGameError { .. } => (SessionView { running: false, ..s }, ClientAction::Nothing),
        ServerMessageView::Error { .. } => (SessionView { running: false, ..s }, ClientAction::Nothing),
        ServerMessageView::GameOver { winner } => (
            SessionView { game_over: true, winner_name: winner, ..s },
            ClientAction::Nothing,
        ),
        ServerMessageView::PlayersInLobby { players, .. } => if claims_spawn(s, players) {
            (
                SessionView { spawn_assigned: true, ..s },
                ClientAction::ClaimSpawn { index: first_index_of(players, s.username) as usize },
            )
        } else {
            (s, ClientAction::Nothing)
        },
    }
}

/// Whether the player may still move and shoot.
pub open spec fn can_act(s: SessionView) -> bool {
    s.game_started && !s.player_dead && !s.game_over
}

/// Whether a local transform differs from the last one reported.
pub open spec fn transform_changed(s: SessionView, position: Position, rotation: Rotation) -> bool {
    !same_position(position, s.last_sent_position) || !same_rotation(rotation, s.last_sent_rotation)
}

/// Whether a local transform is to be reported: the player is alive, the
/// match is not over, and the transform changed.
pub open spec fn reports_move(s: SessionView, position: Position, rotation: Rotation) -> bool {
    !s.player_dead && !s.game_over && transform_changed(s, position, rotation)
}

impl ClientSession {
    pub open spec fn wf(&self) -> bool {
        mirror_names_unique(self@.others)
    }

    /// A session for `username` that has not heard from the server yet.
    pub fn new(username: String) -> (r: ClientSession)
        ensures
            r.wf(),
            r@.username == username@,
            r@.running,
            !r@.game_started && !r@.player_dead && !r@.game_over && !r@.spawn_assigned,
            r@.maze_level == 1,
            r@.player_health == FULL_HEALTH,
            r@.others.len() == 0,
            r@.winner_name.len() == 0,
            r@.last_sent_position == origin(),
            r@.last_sent_rotation == no_rotation(),
    {
        let r = ClientSession {
            username,
            running: true,
            game_started: false,
            maze_level: 1,
            player_dead: false,
            game_over: false,
            winner_name: String::new(),
            spawn_assigned: false,
            player_health: FULL_HEALTH,
            other_players: Vec::new(),
            last_sent_position: Position::default(),
            last_sent_rotation: Rotation::default(),
        };
        assert(r@.others =~= Seq::<MirrorEntry>::empty());
        r
    }

    /// Where the mirror entry of `name` stands.
    pub fn find_remote(&self, name: &String) -> (r: Option<usize>)
        requires
            self.wf(),
        ensures
            r is None <==> !has_remote(self@.others, name@),
            r matches Some(i) ==> i == remote_index(self@.others, name@) && i < self@.others.len(),
    {
        let mut i: usize = 0;
        while i < self.other_players.len()
            invariant
                i <= self@.others.len(),
                self@.others.len() == self.other_players@.len(),
                self.wf(),
                forall|j: int| 0 <= j < i ==> self@.others[j].0 != name@,
            decreases self@.others.len() - i,
        {
            if self.other_players[i].username == *name {
                assert(self@.others[i as int].0 == name@);
                let ghost j = remote_index(self@.others, name@);
                assert(0 <= j < self@.others.len() && self@.others[j].0 == name@);
                assert(j == i);
                return Some(i);
            }
            i += 1;
        }
        None
    }

    fn upsert_remote(&mut self, name: String, position: Position, rotation: Rotation)
        requires
            old(self).wf(),
        ensures
            final(self).wf(),
            final(self)@ == (SessionView {
                others: mirror_upsert(old(self)@.others, name@, position, rotation),
                ..old(self)@
            }),
    {
        let ghost m = self@.others;
        match self.find_remote(&name) {
            Some(i) => {
                let ghost n = name@;
                self.other_players.set(i, RemotePlayer { username: name, position, rotation });
                assert(self@.others =~= m.update(i as int, (n, position, rotation)));
            },
            None => {
                let ghost n = name@;
                self.other_players.push(RemotePlayer { username: name, position, rotation });
                assert(self@.others =~= m.push((n, position, rotation)));
            },
        }
    }

    fn remove_remote(&mut self, name: &String)
        requires
            old(self).wf(),
        ensures
            final(self).wf(),
            final(self)@ == (SessionView { others: mirror_remove(old(self)@.others, name@), ..old(self)@ }),
    {
        let ghost m = self@.others;
        match self.find_remote(name) {
            Some(i) => {
                self.other_players.remove(i);
                assert(self@.others =~= m.remove(i as int));
                assert forall|a: int, b: int|
                    0 <= a < self@.others.len() && 0 <= b < self@.others.len() && a != b implies
                    self@.others[a].0 != self@.others[b].0 by {
                    let oa = if a < i { a } else { a + 1 };
                    let ob = if b < i { b } else { b + 1 };
                    assert(self@.others[a] == m[oa]);
                    assert(self@.others[b] == m[ob]);
                }
            },
            None => {},
        }
    }

    /// Apply one message from the server.
    pub fn handle_server_message(&mut self, message: ServerMessage) -> (r: ClientAction)
        requires
            old(self).wf(),
        ensures
            final(self).wf(),
            (final(self)@, r) == receive_outcome(old(self)@, message@),
    {
        match message {
            ServerMessage::GameStart { maze_level } => {
                self.game_started = true;
                self.maze_level = maze_level;
                ClientAction::Nothing
            },
            ServerMessage::HealthUpdate { player_id, health } => {
                if player_id == self.username {
                    self.player_health = health;
                }
                ClientAction::Nothing
            },
            ServerMessage::PlayerMove { player_id, position, rotation, .. } => {
                if player_id != self.username {
                    self.upsert_remote(player_id, position, rotation);
                }
                ClientAction::Nothing
            },
            ServerMessage::PlayerSpawn { player_id, position } => {
                if player_id != self.username {
                    self.upsert_remote(player_id, position, Rotation::default());
                }
                ClientAction::Nothing
            },
            ServerMessage::PlayerDeath { player_id, .. } => {
                if player_id == self.username {
                    self.player_dead = true;
                } else {
                    self.remove_remote(&player_id);
                }
                ClientAction::Nothing
            },
            ServerMessage::JoinGameError { .. } => {
                self.running = false;
                ClientAction::Nothing
            },
            ServerMessage::Error { .. } => {
                self.running = false;
                ClientAction::Nothing
            },
            ServerMessage::GameOver { winner } => {
                self.game_over = true;
                self.winner_name = winner;
                ClientAction::Nothing
            },
            ServerMessage::PlayersInLobby { player_count, players } => {
                let ghost names = string_views(players@);
                if self.spawn_assigned || !self.game_started {
                    return ClientAction::Nothing;
                }
                let mut i: usize = 0;
                while i < players.len()
                    invariant
                        i <= players@.len(),
                        names == string_views(players@),
                        names.len() == players@.len(),
                        message@ == (ServerMessageView::PlayersInLobby { player_count, players: names }),
                        self@ == old(self)@,
                        self.wf(),
                        !self.spawn_assigned && self.game_started,
                        forall|j: int| 0 <= j < i ==> names[j] != self@.username,
                    decreases players@.len() - i,
                {
                    if players[i] == self.username {
                        let ghost u = self@.username;
                        assert(names[i as int] == u);
                        assert(listed(names, u));
                        assert(0 <= i < names.len() && names[i as int] == u && forall|j: int| 0 <= j < i ==> names[j] != u);
                        let ghost k = first_index_of(names, u);
                        assert(0 <= k < names.len() && names[k] == u && forall|j: int| 0 <= j < k ==> names[j] != u);
                        assert(k == i) by {
                            if k < i {
                                assert(names[k] != self@.username);
                            }
                            if k > i {
                                assert(names[i as int] != self@.username);
                            }
                        }
                        if i < SPAWN_COUNT {
                            assert(claims_spawn(old(self)@, names));
                            self.spawn_assigned = true;
                            return ClientAction::ClaimSpawn { index: i };
                        } else {
                            return ClientAction::Nothing;
                        }
                    }
                    i += 1;
                }
                assert(!listed(names, self@.username));
                ClientAction::Nothing
            },
        }
    }

    /// Whether the player may still move and shoot.
    pub fn can_act(&self) -> (r: bool)
        ensures
            r == can_act(self@),
    {
        self.game_started && !self.player_dead && !self.game_over
    }

    /// The message that asks the server to join the match.
    pub fn join_request(&self) -> (r: ClientMessage)
        ensures
            r@ == (ClientMessageView::JoinGame { username: self@.username }),
    {
        ClientMessage::JoinGame { username: self.username.clone() }
    }

    /// The `Move` to send for the current local transform, if any: only
    /// while alive and before the match is over, and only when the transform
    /// differs from the last one reported, which it then becomes.
    pub fn outbound_move(&mut self, position: Position, rotation: Rotation) -> (r: Option<ClientMessage>)
        requires
            old(self).wf(),
        ensures
            final(self).wf(),
            reports_move(old(self)@, position, rotation) ==> (r matches Some(m) && m@ == (ClientMessageView::Move {
                position,
                rotation,
                yield_control: Scalar { bits: CLIENT_YIELD_BITS },
            })) && final(self)@ == (SessionView {
                last_sent_position: position,
                last_sent_rotation: rotation,
                ..old(self)@
            }),
            !reports_move(old(self)@, position, rotation) ==> r is None && final(self)@ == old(self)@,
    {
        if !self.player_dead && !self.game_over && (!position.same_as(&self.last_sent_position)
            || !rotation.same_as(&self.last_sent_rotation)) {
            self.last_sent_position = position;
            self.last_sent_rotation = rotation;
            Some(
                ClientMessage::Move {
                    position,
                    rotation,
                    yield_control: Scalar::from_bits(CLIENT_YIELD_BITS),
                },
            )
        } else {
            None
        }
    }

    /// The `ShotPlayer` to send at `target`, if the player may still act.
    pub fn outbound_shot(&self, target: String) -> (r: Option<ClientMessage>)
        ensures
            can_act(self@) ==> (r matches Some(m) && m@ == (ClientMessageView::ShotPlayer { player_username: target@ })),
            !can_act(self@) ==> r is None,
    {
        if self.can_act() {
            Some(ClientMessage::ShotPlayer { player_username: target })
        } else {
            None
        }
    }
}

} // verus!
