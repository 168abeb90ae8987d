//! The player registry: connected players keyed by network address.
//!
//! Entries keep the order in which their addresses first joined. Addresses are
//! unique, and so are usernames: a join is refused when its name is taken.

use vstd::prelude::*;
use crate::addr::PeerAddr;
use crate::player::{fresh_player, Player, PlayerView};
use crate::scalar::{Position, Rotation};

verus! {

/// The registry's contents, in join order.
pub type Roster = Seq<(PeerAddr, PlayerView)>;

/// The largest roster the protocol supports.
pub const MAX_ROSTER: usize = 255;

pub open spec fn has_addr(r: Roster, a: PeerAddr) -> bool {
    exists|i: int| 0 <= i < r.len() && #[trigger] r[i].0 == a
}

pub open spec fn has_username(r: Roster, name: Seq<char>) -> bool {
    exists|i: int| 0 <= i < r.len() && #[trigger] r[i].1.username == name
}

/// Where the entry of an address stands.
pub open spec fn addr_index(r: Roster, a: PeerAddr) -> int {
    choose|i: int| 0 <= i < r.len() && #[trigger] r[i].0 == a
}

/// Where the entry of a username stands.
pub open spec fn username_index(r: Roster, name: Seq<char>) -> int {
    choose|i: int| 0 <= i < r.len() && #[trigger] r[i].1.username == name
}

pub open spec fn addrs_unique(r: Roster) -> bool {
    forall|i: int, j: int| 0 <= i < r.len() && 0 <= j < r.len() && i != j ==> r[i].0 != r[j].0
}

pub open spec fn names_unique(r: Roster) -> bool {
    forall|i: int, j: int|
        0 <= i < r.len() && 0 <= j < r.len() && i != j ==> r[i].1.username != r[j].1.username
}

pub open spec fn roster_wf(r: Roster) -> bool {
    &&& addrs_unique(r)
    &&& names_unique(r)
    &&& r.len() <= MAX_ROSTER
}

/// The usernames, in join order.
pub open spec fn names(r: Roster) -> Seq<Seq<char>> {
    r.map_values(|e: (PeerAddr, PlayerView)| e.1.username)
}

/// The addresses, in join order.
pub open spec fn addrs(r: Roster) -> Seq<PeerAddr> {
    r.map_values(|e: (PeerAddr, PlayerView)| e.0)
}

/// The usernames of players whose health is above zero, in join order.
pub open spec fn alive_names(r: Roster) -> Seq<Seq<char>>
    decreases r.len(),
{
    if r.len() == 0 {
        Seq::empty()
    } else {
        let rest = alive_names(r.drop_last());
        if r.last().1.health > 0 {
            rest.push(r.last().1.username)
        } else {
            rest
        }
    }
}

/// Insert a player under an address, replacing the entry the address had.
pub open spec fn upsert(r: Roster, a: PeerAddr, p: PlayerView) -> Roster {
    if has_addr(r, a) {
        r.update(addr_index(r, a), (a, p))
    } else {
        r.push((a, p))
    }
}

/// Replace the position and rotation of one entry.
pub open spec fn moved(r: Roster, i: int, position: Position, rotation: Rotation) -> Roster {
    r.update(i, (r[i].0, PlayerView { position, rotation, ..r[i].1 }))
}

/// Health after a hit, saturating at zero.
pub open spec fn damaged_health(health: u32, amount: u32) -> u32 {
    if health >= amount {
        (health - amount) as u32
    } else {
        0
    }
}

/// Lower the health of one entry by `amount`, saturating at zero.
pub open spec fn damaged(r: Roster, i: int, amount: u32) -> Roster {
    r.update(i, (r[i].0, PlayerView { health: damaged_health(r[i].1.health, amount), ..r[i].1 }))
}

/// Why a join was refused.
#[derive(Clone, Copy, Debug, PartialEq, Eq, Structural)]
pub enum JoinError {
    DuplicateUsername,
    ServerFull,
}

/// Connected players keyed by address.
#[derive(Debug)]
pub struct Registry {
    entries: Vec<(PeerAddr, Player)>,
}

impl View for Registry {
    type V = Roster;

    closed spec fn view(&self) -> Roster {
        self.entries@.map_values(|e: (PeerAddr, Player)| (e.0, e.1@))
    }
}

impl Registry {
    pub open spec fn wf(&self) -> bool {
        roster_wf(self@)
    }

    pub fn new() -> (r: Registry)
        ensures
            r@ == Seq::<(PeerAddr, PlayerView)>::empty(),
            r.wf(),
    {
        Registry { entries: Vec::new() }
    }

    pub fn len(&self) -> (r: usize)
        ensures
            r == self@.len(),
    {
        self.entries.len()
    }

    pub fn player(&self, i: usize) -> (r: &Player)
        requires
            i < self@.len(),
        ensures
            r@ == self@[i as int].1,
    {
        &self.entries[i].1
    }

    pub fn address(&self, i: usize) -> (r: PeerAddr)
        requires
            i < self@.len(),
        ensures
            r == self@[i as int].0,
    {
        self.entries[i].0
    }

    /// The index of the entry registered under `addr`.
    pub fn find_by_addr(&self, addr: PeerAddr) -> (r: Option<usize>)
        requires
            self.wf(),
        ensures
            r is None <==> !has_addr(self@, addr),
            r matches Some(i) ==> i == addr_index(self@, addr) && i < self@.len()
                && self@[i as int].0 == addr,
    {
        let mut i: usize = 0;
        while i < self.entries.len()
            invariant
                i <= self@.len(),
                self@.len() == self.entries@.len(),
                self.wf(),
                forall|j: int| 0 <= j < i ==> self@[j].0 != addr,
            decreases self@.len() - i,
        {
            if self.entries[i].0 == addr {
                assert(self@[i as int].0 == addr);
                let ghost j = addr_index(self@, addr);
                assert(0 <= j < self@.len() && self@[j].0 == addr);
                assert(j == i);
                return Some(i);
            }
            i += 1;
        }
        None
    }

    /// The index of the entry whose username is `name`.
    pub fn find_by_username(&self, name: &String) -> (r: Option<usize>)
        requires
            self.wf(),
        ensures
            r is None <==> !has_username(self@, name@),
            r matches Some(i) ==> i == username_index(self@, name@) && i < self@.len()
                && self@[i as int].1.username == name@,
    {
        let mut i: usize = 0;
        while i < self.entries.len()
            invariant
                i <= self@.len(),
                self@.len() == self.entries@.len(),
                self.wf(),
                forall|j: int| 0 <= j < i ==> self@[j].1.username != name@,
            decreases self@.len() - i,
        {
            if self.entries[i].1.username == *name {
                assert(self@[i as int].1.username == name@);
                let ghost j = username_index(self@, name@);
                assert(0 <= j < self@.len() && self@[j].1.username == name@);
                assert(j == i);
                return Some(i);
            }
            i += 1;
        }
        None
    }

    /// Add a player, unless the name is taken or the registry already holds
    /// `max_players`. A join from a registered address replaces its entry.
    pub fn register(&mut self, addr: PeerAddr, username: String, max_players: u8) -> (r: Result<(), JoinError>)
        requires
            old(self).wf(),
        ensures
            final(self).wf(),
            has_username(old(self)@, username@) ==> r == Err::<(), JoinError>(JoinError::DuplicateUsername)
                && final(self)@ == old(self)@,
            !has_username(old(self)@, username@) && old(self)@.len() >= max_players ==> r == Err::<(), JoinError>(JoinError::ServerFull)
                && final(self)@ == old(self)@,
            !has_username(old(self)@, username@) && old(self)@.len() < max_players ==> r is Ok
                && final(self)@ == upsert(old(self)@, addr, fresh_player(username@)),
    {
        if self.find_by_username(&username).is_some() {
            return Err(JoinError::DuplicateUsername);
        }
        if self.entries.len() >= max_players as usize {
            return Err(JoinError::ServerFull);
        }
        let ghost old_r = self@;
        let player = Player::joined(username);
        match self.find_by_addr(addr) {
            Some(i) => {
                self.entries.set(i, (addr, player));
                assert(self@ =~= old_r.update(i as int, (addr, fresh_player(username@))));
            },
            None => {
                self.entries.push((addr, player));
                assert(self@ =~= old_r.push((addr, fresh_player(username@))));
            },
        }
        Ok(())
    }

    /// Record a new position and rotation for the player at `addr`. Returns
    /// where its entry stands, or `None`, changing nothing, when the address
    /// is not registered.
    pub fn update_transform(&mut self, addr: PeerAddr, position: Position, rotation: Rotation) -> (r: Option<usize>)
        requires
            old(self).wf(),
        ensures
            final(self).wf(),
            r is None <==> !has_addr(old(self)@, addr),
            r is None ==> final(self)@ == old(self)@,
            r matches Some(i) ==> i == addr_index(old(self)@, addr)
                && final(self)@ == moved(old(self)@, i as int, position, rotation),
    {
        match self.find_by_addr(addr) {
            Some(i) => {
                let ghost old_r = self@;
                self.entries[i].1.position = position;
                self.entries[i].1.rotation = rotation;
                assert(self@ =~= moved(old_r, i as int, position, rotation));
                assert(names(self@) =~= names(old_r));
                Some(i)
            },
            None => None,
        }
    }

    /// Lower the health of the player named `username` by `amount`,
    /// saturating at zero. Returns the new health, or `None`, changing
    /// nothing, when no player has that name.
    pub fn apply_damage(&mut self, username: &String, amount: u32) -> (r: Option<u32>)
        requires
            old(self).wf(),
        ensures
            final(self).wf(),
            r is None <==> !has_username(old(self)@, username@),
            r is None ==> final(self)@ == old(self)@,
            r matches Some(h) ==> {
                let i = username_index(old(self)@, username@);
                &&& final(self)@ == damaged(old(self)@, i, amount)
                &&& h == damaged_health(old(self)@[i].1.health, amount)
            },
    {
        match self.find_by_username(username) {
            Some(i) => {
                let ghost old_r = self@;
                let health = self.entries[i].1.health.saturating_sub(amount);
                self.entries[i].1.health = health;
                assert(self@ =~= damaged(old_r, i as int, amount));
                Some(health)
            },
            None => None,
        }
    }

    /// Drop the entry of `addr`, keeping the others in order. Returns the
    /// removed player, or `None` when the address is not registered.
    pub fn remove(&mut self, addr: PeerAddr) -> (r: Option<Player>)
        requires
            old(self).wf(),
        ensures
            final(self).wf(),
            r is None <==> !has_addr(old(self)@, addr),
            r is None ==> final(self)@ == old(self)@,
            r matches Some(p) ==> p@ == old(self)@[addr_index(old(self)@, addr)].1
                && final(self)@ == old(self)@.remove(addr_index(old(self)@, addr)),
    {
        match self.find_by_addr(addr) {
            Some(i) => {
                let ghost old_r = self@;
                let (_, player) = self.entries.remove(i);
                assert(self@ =~= old_r.remove(i as int));
                assert forall|a: int, b: int|
                    0 <= a < self@.len() && 0 <= b < self@.len() && a != b implies
                    self@[a].0 != self@[b].0 && self@[a].1.username != self@[b].1.username by {
                    let oa = if a < i { a } else { a + 1 };
                    let ob = if b < i { b } else { b + 1 };
                    assert(self@[a] == old_r[oa]);
                    assert(self@[b] == old_r[ob]);
                }
                Some(player)
            },
            None => None,
        }
    }

    /// The usernames, in join order.
    pub fn usernames(&self) -> (r: Vec<String>)
        ensures
            r@.map_values(|s: String| s@) == names(self@),
    {
        let mut out: Vec<String> = Vec::new();
        let mut i: usize = 0;
        while i < self.entries.len()
            invariant
                i <= self@.len(),
                self@.len() == self.entries@.len(),
                out@.len() == i,
                forall|j: int| 0 <= j < i ==> #[trigger] out@[j]@ == self@[j].1.username,
            decreases self@.len() - i,
        {
            out.push(self.entries[i].1.username.clone());
            i += 1;
        }
        assert(out@.map_values(|s: String| s@) =~= names(self@));
        out
    }

    /// The addresses, in join order.
    pub fn addresses(&self) -> (r: Vec<PeerAddr>)
        ensures
            r@ == addrs(self@),
    {
        let mut out: Vec<PeerAddr> = Vec::new();
        let mut i: usize = 0;
        while i < self.entries.len()
            invariant
                i <= self@.len(),
                self@.len() == self.entries@.len(),
                out@.len() == i,
                forall|j: int| 0 <= j < i ==> #[trigger] out@[j] == self@[j].0,
            decreases self@.len() - i,
        {
            out.push(self.entries[i].0);
            i += 1;
        }
        assert(out@ =~= addrs(self@));
        out
    }

    /// The one player still above zero health, when exactly one is.
    pub fn sole_survivor(&self) -> (r: Option<usize>)
        ensures
            r is Some <==> alive_names(self@).len() == 1,
            r matches Some(i) ==> i < self@.len() && self@[i as int].1.username == alive_names(self@)[0]
                && self@[i as int].1.health > 0,
    {
        let mut count: usize = 0;
        let mut first: usize = 0;
        let mut i: usize = 0;
        while i < self.entries.len()
            invariant
                i <= self@.len(),
                self@.len() == self.entries@.len(),
                count == alive_names(self@.subrange(0, i as int)).len(),
                count <= i,
                count > 0 ==> first < i && self@[first as int].1.health > 0
                    && self@[first as int].1.username == alive_names(self@.subrange(0, i as int))[0],
            decreases self@.len() - i,
        {
            let ghost pre = self@.subrange(0, i as int);
            let ghost next = self@.subrange(0, i + 1);
            assert(next.drop_last() =~= pre);
            assert(next.last() == self@[i as int]);
            if self.entries[i].1.health > 0 {
                if count == 0 {
                    first = i;
                }
                count += 1;
            }
            i += 1;
        }
        assert(self@.subrange(0, self@.len() as int) =~= self@);
        if count == 1 {
            Some(first)
        } else {
            None
        }
    }
}

} // verus!
