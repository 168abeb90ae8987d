//! Properties of the match that hold across handlers and across steps.

use vstd::prelude::*;
use crate::addr::PeerAddr;
use crate::game::{
    broadcast, join_outcome, lobby_message, message_outcome, move_outcome,
    shoot_outcome, shot_lands, tick_outcome, GameState, GameView, OutboundView,
    COUNTDOWN_MS, SHOT_DAMAGE,
};
use crate::messages::{ClientMessageView, ServerMessageView};
use crate::player::fresh_player;
use crate::registry::{
    addr_index, addrs, alive_names, damaged_health, has_addr, has_username, roster_wf,
    upsert, username_index, Roster,
};
use crate::scalar::{Position, Rotation, Scalar};

verus! {

/// One `JoinGame`: who sends it, under which name, and when.
pub type JoinRequest = (PeerAddr, Seq<char>, u64);

/// The match after the first `k` joins of `joins`.
pub open spec fn after_joins(min_players: u8, max_players: u8, g: GameView, joins: Seq<JoinRequest>, k: nat) -> GameView
    decreases k,
{
    if k == 0 {
        g
    } else {
        let j = joins[k - 1];
        join_outcome(min_players, max_players, after_joins(min_players, max_players, g, joins, (k - 1) as nat), j.0, j.1, j.2).0
    }
}

/// Whether a list of outgoing messages holds a `GameStart`.
pub open spec fn announces_start(out: Seq<OutboundView>) -> bool {
    exists|i: int| 0 <= i < out.len() && #[trigger] out[i].message is GameStart
}

/// Whether a list of outgoing messages holds a `GameOver`.
pub open spec fn announces_game_over(out: Seq<OutboundView>) -> bool {
    exists|i: int| 0 <= i < out.len() && #[trigger] out[i].message is GameOver
}

proof fn lemma_upsert_names(r: Roster, a: PeerAddr, name: Seq<char>)
    ensures
        upsert(r, a, fresh_player(name)).len() <= r.len() + 1,
        has_username(upsert(r, a, fresh_player(name)), name),
        forall|i: int| 0 <= i < upsert(r, a, fresh_player(name)).len()
            ==> #[trigger] upsert(r, a, fresh_player(name))[i].1.username == name
                || has_username(r, upsert(r, a, fresh_player(name))[i].1.username),
{
    let u = upsert(r, a, fresh_player(name));
    if has_addr(r, a) {
        let k = addr_index(r, a);
        assert(u[k].1.username == name);
    } else {
        assert(u[r.len() as int].1.username == name);
    }
    assert forall|i: int| 0 <= i < u.len() implies #[trigger] u[i].1.username == name
        || has_username(r, u[i].1.username) by {
        if u[i].1.username != name {
            assert(r[i] == u[i]);
        }
    }
}

proof fn lemma_joins_prefix(min_players: u8, max_players: u8, g: GameView, joins: Seq<JoinRequest>, k: nat)
    requires
        k <= joins.len(),
        g.players.len() + joins.len() <= max_players,
        forall|i: int, j: int| 0 <= i < j < joins.len() ==> joins[i].1 != joins[j].1,
        forall|i: int| 0 <= i < joins.len() ==> !has_username(g.players, #[trigger] joins[i].1),
    ensures
        after_joins(min_players, max_players, g, joins, k).players.len() <= g.players.len() + k,
        forall|name: Seq<char>| has_username(after_joins(min_players, max_players, g, joins, k).players, name)
            ==> has_username(g.players, name) || exists|j: int| 0 <= j < k && #[trigger] joins[j].1 == name,
    decreases k,
{
    if k > 0 {
        let p = (k - 1) as nat;
        lemma_joins_prefix(min_players, max_players, g, joins, p);
        let before = after_joins(min_players, max_players, g, joins, p);
        let j = joins[p as int];
        assert(!has_username(before.players, j.1)) by {
            if has_username(before.players, j.1) {
                if !has_username(g.players, j.1) {
                    let w = choose|w: int| 0 <= w < p && #[trigger] joins[w].1 == j.1;
                    assert(joins[w].1 != joins[p as int].1);
                }
            }
        }
        lemma_upsert_names(before.players, j.0, j.1);
        let after = after_joins(min_players, max_players, g, joins, k);
        assert forall|name: Seq<char>| has_username(after.players, name) implies has_username(g.players, name)
            || exists|w: int| 0 <= w < k && #[trigger] joins[w].1 == name by {
            let i = choose|i: int| 0 <= i < after.players.len() && #[trigger] after.players[i].1.username == name;
            if name != j.1 {
                assert(has_username(before.players, name));
                if !has_username(g.players, name) {
                    let w = choose|w: int| 0 <= w < p && #[trigger] joins[w].1 == name;
                    assert(0 <= w < k && joins[w].1 == name);
                }
            } else {
                assert(joins[p as int].1 == name);
            }
        }
    }
}

/// Joins under distinct usernames, none of them registered, and no more of
/// them than there is room for, all succeed: each one registers its player
/// and announces a lobby whose `player_count` is the registry's size.
pub proof fn lemma_distinct_joins_succeed(
    min_players: u8,
    max_players: u8,
    g: GameView,
    joins: Seq<JoinRequest>,
)
    requires
        roster_wf(g.players),
        g.players.len() + joins.len() <= max_players,
        forall|i: int, j: int| 0 <= i < j < joins.len() ==> joins[i].1 != joins[j].1,
        forall|i: int| 0 <= i < joins.len() ==> !has_username(g.players, #[trigger] joins[i].1),
    ensures
        forall|k: int| 0 <= k < joins.len() ==> {
            let before = #[trigger] after_joins(min_players, max_players, g, joins, k as nat);
            let step = join_outcome(min_players, max_players, before, joins[k].0, joins[k].1, joins[k].2);
            &&& has_username(step.0.players, joins[k].1)
            &&& step.1 == seq![broadcast(step.0.players, lobby_message(step.0.players))]
            &&& step.0.players.len() <= max_players
            &&& step.1[0].message->player_count == step.0.players.len()
        },
{
    assert forall|k: int| 0 <= k < joins.len() implies {
        let before = #[trigger] after_joins(min_players, max_players, g, joins, k as nat);
        let step = join_outcome(min_players, max_players, before, joins[k].0, joins[k].1, joins[k].2);
        &&& has_username(step.0.players, joins[k].1)
        &&& step.1 == seq![broadcast(step.0.players, lobby_message(step.0.players))]
        &&& step.0.players.len() <= max_players
        &&& step.1[0].message->player_count == step.0.players.len()
    } by {
        lemma_joins_prefix(min_players, max_players, g, joins, k as nat);
        let before = after_joins(min_players, max_players, g, joins, k as nat);
        let j = joins[k];
        assert(!has_username(before.players, j.1)) by {
            if has_username(before.players, j.1) {
                if !has_username(g.players, j.1) {
                    let w = choose|w: int| 0 <= w < k && #[trigger] joins[w].1 == j.1;
                    assert(joins[w].1 != joins[k].1);
                }
            }
        }
        lemma_upsert_names(before.players, j.0, j.1);
    }
}

/// A join under a username that is already registered is refused with
/// `JoinGameError`, sent to the joining address alone, and changes nothing.
pub proof fn lemma_duplicate_username_refused(
    min_players: u8,
    max_players: u8,
    g: GameView,
    addr: PeerAddr,
    username: Seq<char>,
    now: u64,
)
    requires
        has_username(g.players, username),
    ensures
        join_outcome(min_players, max_players, g, addr, username, now).0 == g,
        join_outcome(min_players, max_players, g, addr, username, now).1.len() == 1,
        join_outcome(min_players, max_players, g, addr, username, now).1[0].recipients == seq![addr],
        join_outcome(min_players, max_players, g, addr, username, now).1[0].message is JoinGameError,
{
}

/// A join while the registry holds `max_players` is refused with
/// `JoinGameError`, whatever the username, and changes nothing.
pub proof fn lemma_full_match_refuses(
    min_players: u8,
    max_players: u8,
    g: GameView,
    addr: PeerAddr,
    username: Seq<char>,
    now: u64,
)
    requires
        g.players.len() == max_players,
    ensures
        join_outcome(min_players, max_players, g, addr, username, now).0 == g,
        join_outcome(min_players, max_players, g, addr, username, now).1.len() == 1,
        join_outcome(min_players, max_players, g, addr, username, now).1[0].recipients == seq![addr],
        join_outcome(min_players, max_players, g, addr, username, now).1[0].message is JoinGameError,
{
}

/// With enough players and the countdown armed at `t`, a tick at `now`
/// starts the match and broadcasts `GameStart` with the match's level when
/// five seconds have passed since `t`, and changes nothing before.
pub proof fn lemma_start_after_countdown(min_players: u8, g: GameView, t: u64, now: u64)
    requires
        g.state == GameState::Waiting,
        g.players.len() >= min_players,
        g.start == Some(t),
    ensures
        now >= t + COUNTDOWN_MS ==> tick_outcome(min_players, g, now) == (
            GameView { state: GameState::InProgress, ..g },
            seq![broadcast(g.players, ServerMessageView::GameStart { maze_level: g.maze_level })],
        ),
        now < t + COUNTDOWN_MS ==> tick_outcome(min_players, g, now) == (g, Seq::<OutboundView>::empty()),
{
}

/// No client message ever starts the match or broadcasts `GameStart`: only
/// the countdown does.
pub proof fn lemma_messages_never_start(
    min_players: u8,
    max_players: u8,
    g: GameView,
    addr: PeerAddr,
    m: ClientMessageView,
    now: u64,
)
    ensures
        !announces_start(message_outcome(min_players, max_players, g, addr, m, now).1),
        g.state != GameState::InProgress ==> message_outcome(min_players, max_players, g, addr, m, now).0.state
            != GameState::InProgress,
{
    let out = message_outcome(min_players, max_players, g, addr, m, now).1;
    assert forall|i: int| 0 <= i < out.len() implies !(#[trigger] out[i].message is GameStart) by {
        match m {
            ClientMessageView::ShotPlayer { player_username } => {
                if shot_lands(g, addr, player_username) {
                    let players = shoot_outcome(g, addr, player_username).0.players;
                    let t = username_index(g.players, player_username);
                    let health = players[t].1.health;
                    let shooter = g.players[addr_index(g.players, addr)].1.username;
                    let update = broadcast(players, ServerMessageView::HealthUpdate { player_id: player_username, health });
                    let death = if health == 0 {
                        seq![broadcast(players, ServerMessageView::PlayerDeath { player_id: player_username, killer_id: Some(shooter) })]
                    } else {
                        Seq::empty()
                    };
                    let victory = g.state != GameState::Finished && alive_names(players).len() == 1;
                    let over = if victory {
                        seq![broadcast(players, ServerMessageView::GameOver { winner: alive_names(players)[0] })]
                    } else {
                        Seq::empty()
                    };
                    assert(out == seq![update] + death + over);
                    if i >= 1 + death.len() {
                        assert(out[i] == over[i - 1 - death.len()]);
                    } else if i >= 1 {
                        assert(out[i] == death[i - 1]);
                    }
                }
            },
            _ => {},
        }
    }
}

/// When the registry has dropped below the minimum, a tick disarms the
/// countdown without starting the match. From a disarmed countdown, neither
/// a tick nor a join starts the match: whichever meets the minimum again
/// arms the countdown afresh at its own time, from which five seconds must
/// pass before a tick starts the match.
pub proof fn lemma_countdown_restarts(
    min_players: u8,
    max_players: u8,
    g: GameView,
    t1: u64,
    t2: u64,
    addr: PeerAddr,
    username: Seq<char>,
)
    requires
        g.state == GameState::Waiting,
        g.players.len() < min_players,
    ensures
        tick_outcome(min_players, g, t1) == (GameView { start: None, ..g }, Seq::<OutboundView>::empty()),
        ({
            let g1 = GameView { start: None, ..g };
            let (g2, out2) = tick_outcome(min_players, g1, t2);
            &&& out2.len() == 0
            &&& g2.state == GameState::Waiting
            &&& g2.start == (if g1.players.len() >= min_players { Some(t2) } else { None })
        }),
        ({
            let g1 = GameView { start: None, ..g };
            let (g2, out2) = join_outcome(min_players, max_players, g1, addr, username, t2);
            &&& !announces_start(out2)
            &&& g2.state == GameState::Waiting
            &&& (g2.start is Some ==> g2.start == Some(t2))
        }),
{
    let g1 = GameView { start: None, ..g };
    let out2 = join_outcome(min_players, max_players, g1, addr, username, t2).1;
    assert(out2.len() == 1);
    assert(!(out2[0].message is GameStart));
}

/// A shot that lands takes `SHOT_DAMAGE` from the target's health, never
/// going below zero, and broadcasts exactly one `PlayerDeath`, naming the
/// shooter as killer, when the new health is zero, and none otherwise.
pub proof fn lemma_damage_saturates(g: GameView, addr: PeerAddr, target: Seq<char>)
    requires
        shot_lands(g, addr, target),
    ensures
        ({
            let (g2, out) = shoot_outcome(g, addr, target);
            let t = username_index(g.players, target);
            let health = g2.players[t].1.health;
            let shooter = g.players[addr_index(g.players, addr)].1.username;
            &&& health == damaged_health(g.players[t].1.health, SHOT_DAMAGE)
            &&& (health == 0 <==> g.players[t].1.health <= SHOT_DAMAGE)
            &&& health == 0 ==> out[1].message == (ServerMessageView::PlayerDeath {
                player_id: target,
                killer_id: Some(shooter),
            })
            &&& forall|i: int| 0 <= i < out.len() && #[trigger] out[i].message is PlayerDeath
                ==> health == 0 && i == 1
        }),
{
    let (g2, out) = shoot_outcome(g, addr, target);
    let t = username_index(g.players, target);
    let players = g2.players;
    let health = players[t].1.health;
    let shooter = g.players[addr_index(g.players, addr)].1.username;
    let update = broadcast(players, ServerMessageView::HealthUpdate { player_id: target, health });
    let death = if health == 0 {
        seq![broadcast(players, ServerMessageView::PlayerDeath { player_id: target, killer_id: Some(shooter) })]
    } else {
        Seq::empty()
    };
    let victory = g.state != GameState::Finished && alive_names(players).len() == 1;
    let over = if victory {
        seq![broadcast(players, ServerMessageView::GameOver { winner: alive_names(players)[0] })]
    } else {
        Seq::empty()
    };
    assert(out == seq![update] + death + over);
    assert forall|i: int| 0 <= i < out.len() && #[trigger] out[i].message is PlayerDeath implies health == 0
        && i == 1 by {
        if i >= 1 + death.len() {
            assert(out[i] == over[i - 1 - death.len()]);
        } else if i >= 1 {
            assert(out[i] == death[i - 1]);
        }
    }
}

/// A shot after which exactly one player is above zero health ends a match
/// that had not ended: the match becomes `Finished` and exactly one
/// `GameOver` is broadcast, naming that player.
pub proof fn lemma_last_survivor_wins(g: GameView, addr: PeerAddr, target: Seq<char>)
    requires
        shot_lands(g, addr, target),
        g.state != GameState::Finished,
        alive_names(shoot_outcome(g, addr, target).0.players).len() == 1,
    ensures
        ({
            let (g2, out) = shoot_outcome(g, addr, target);
            &&& g2.state == GameState::Finished
            &&& out.last().message == (ServerMessageView::GameOver { winner: alive_names(g2.players)[0] })
            &&& out.last().recipients == addrs(g2.players)
            &&& forall|i: int| 0 <= i < out.len() && #[trigger] out[i].message is GameOver ==> i == out.len() - 1
        }),
{
    let (g2, out) = shoot_outcome(g, addr, target);
    let t = username_index(g.players, target);
    let players = g2.players;
    let health = players[t].1.health;
    let shooter = g.players[addr_index(g.players, addr)].1.username;
    let update = broadcast(players, ServerMessageView::HealthUpdate { player_id: target, health });
    let death = if health == 0 {
        seq![broadcast(players, ServerMessageView::PlayerDeath { player_id: target, killer_id: Some(shooter) })]
    } else {
        Seq::empty()
    };
    let over = seq![broadcast(players, ServerMessageView::GameOver { winner: alive_names(players)[0] })];
    assert(out == seq![update] + death + over);
    assert forall|i: int| 0 <= i < out.len() && #[trigger] out[i].message is GameOver implies i == out.len() - 1 by {
        if i >= 1 && i < 1 + death.len() {
            assert(out[i] == death[i - 1]);
        }
    }
}

/// A finished match stays finished: no client message or tick changes its
/// state, and none broadcasts `GameOver` again.
pub proof fn lemma_finished_is_final(
    min_players: u8,
    max_players: u8,
    g: GameView,
    addr: PeerAddr,
    m: ClientMessageView,
    now: u64,
)
    requires
        g.state == GameState::Finished,
    ensures
        message_outcome(min_players, max_players, g, addr, m, now).0.state == GameState::Finished,
        !announces_game_over(message_outcome(min_players, max_players, g, addr, m, now).1),
        tick_outcome(min_players, g, now) == (g, Seq::<OutboundView>::empty()),
{
    let out = message_outcome(min_players, max_players, g, addr, m, now).1;
    assert forall|i: int| 0 <= i < out.len() implies !(#[trigger] out[i].message is GameOver) by {
        match m {
            ClientMessageView::ShotPlayer { player_username } => {
                if shot_lands(g, addr, player_username) {
                    let players = shoot_outcome(g, addr, player_username).0.players;
                    let t = username_index(g.players, player_username);
                    let health = players[t].1.health;
                    let shooter = g.players[addr_index(g.players, addr)].1.username;
                    let update = broadcast(players, ServerMessageView::HealthUpdate { player_id: player_username, health });
                    let death = if health == 0 {
                        seq![broadcast(players, ServerMessageView::PlayerDeath { player_id: player_username, killer_id: Some(shooter) })]
                    } else {
                        Seq::empty()
                    };
                    assert(out == seq![update] + death + Seq::<OutboundView>::empty());
                    if i >= 1 {
                        assert(out[i] == death[i - 1]);
                    }
                }
            },
            _ => {},
        }
    }
}

/// A `Move` from a registered address is echoed to every player as a
/// `PlayerMove` carrying the sender's username and exactly the submitted
/// position, rotation and `yield_control`.
pub proof fn lemma_move_echoed(g: GameView, addr: PeerAddr, position: Position, rotation: Rotation, yield_control: Scalar)
    requires
        has_addr(g.players, addr),
    ensures
        move_outcome(g, addr, position, rotation, yield_control).1 == seq![
            OutboundView {
                recipients: addrs(g.players),
                message: ServerMessageView::PlayerMove {
                    player_id: g.players[addr_index(g.players, addr)].1.username,
                    position,
                    rotation,
                    yield_control,
                },
            },
        ],
{
    let players = move_outcome(g, addr, position, rotation, yield_control).0.players;
    assert(addrs(players) =~= addrs(g.players));
}

/// `Move` and `ShotPlayer` from an address that is not registered change
/// nothing and send nothing.
pub proof fn lemma_unregistered_ignored(
    g: GameView,
    addr: PeerAddr,
    position: Position,
    rotation: Rotation,
    yield_control: Scalar,
    target: Seq<char>,
)
    requires
        !has_addr(g.players, addr),
    ensures
        move_outcome(g, addr, position, rotation, yield_control) == (g, Seq::<OutboundView>::empty()),
        shoot_outcome(g, addr, target) == (g, Seq::<OutboundView>::empty()),
{
}

} // verus!
