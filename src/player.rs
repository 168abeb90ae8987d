//! Player records and their loadout.

use vstd::prelude::*;
use crate::scalar::{no_rotation, origin, Position, Rotation, Scalar};

verus! {

/// Bit pattern of 1.5, the pistol's shots per second.
pub const PISTOL_FIRE_RATE_BITS: u32 = 0x3FC0_0000;

/// Bit pattern of 30.0, the pistol's range in world units.
pub const PISTOL_RANGE_BITS: u32 = 0x41F0_0000;

/// Weapon characteristics. They are static per loadout and are not consumed
/// by combat resolution.
#[derive(Debug)]
pub struct Weapon {
    pub name: String,
    pub damage: u32,
    pub fire_rate: Scalar,
    pub ammo_count: u32,
    pub range: Scalar,
}

pub ghost struct WeaponView {
    pub name: Seq<char>,
    pub damage: u32,
    pub fire_rate: Scalar,
    pub ammo_count: u32,
    pub range: Scalar,
}

impl View for Weapon {
    type V = WeaponView;

    open spec fn view(&self) -> WeaponView {
        WeaponView {
            name: self.name@,
            damage: self.damage,
            fire_rate: self.fire_rate,
            ammo_count: self.ammo_count,
            range: self.range,
        }
    }
}

pub open spec fn pistol_view() -> WeaponView {
    WeaponView {
        name: "Pistol"@,
        damage: 25,
        fire_rate: Scalar { bits: PISTOL_FIRE_RATE_BITS },
        ammo_count: 12,
        range: Scalar { bits: PISTOL_RANGE_BITS },
    }
}

impl Weapon {
    /// The standard loadout: a pistol.
    pub fn pistol() -> (r: Weapon)
        ensures
            r@ == pistol_view(),
    {
        Weapon {
            name: "Pistol".to_string(),
            damage: 25,
            fire_rate: Scalar::from_bits(PISTOL_FIRE_RATE_BITS),
            ammo_count: 12,
            range: Scalar::from_bits(PISTOL_RANGE_BITS),
        }
    }
}

/// A connected player's state as the server holds it.
#[derive(Debug)]
pub struct Player {
    pub username: String,
    pub position: Position,
    /// Height in centimetres.
    pub height: u32,
    pub rotation: Rotation,
    /// Health points, from 0 to 100.
    pub health: u32,
    pub weapon: Weapon,
}

pub ghost struct PlayerView {
    pub username: Seq<char>,
    pub position: Position,
    pub height: u32,
    pub rotation: Rotation,
    pub health: u32,
    pub weapon: WeaponView,
}

impl View for Player {
    type V = PlayerView;

    open spec fn view(&self) -> PlayerView {
        PlayerView {
            username: self.username@,
            position: self.position,
            height: self.height,
            rotation: self.rotation,
            health: self.health,
            weapon: self.weapon@,
        }
    }
}

/// Health of a freshly joined player.
pub const FULL_HEALTH: u32 = 100;

/// The record a successful join creates: at the origin, level, at full
/// health, with a pistol.
pub open spec fn fresh_player(username: Seq<char>) -> PlayerView {
    PlayerView {
        username,
        position: origin(),
        height: Player::DEFAULT_HEIGHT,
        rotation: no_rotation(),
        health: FULL_HEALTH,
        weapon: pistol_view(),
    }
}

impl Player {
    /// Default height in centimetres.
    pub const DEFAULT_HEIGHT: u32 = 180;

    pub fn new(
        username: String,
        position: Position,
        height: u32,
        rotation: Rotation,
        health: u32,
        weapon: Weapon,
    ) -> (r: Player)
        ensures
            r@ == (PlayerView {
                username: username@,
                position,
                height,
                rotation,
                health,
                weapon: weapon@,
            }),
    {
        Player { username, position, height, rotation, health, weapon }
    }

    /// A newly joined player with the given name.
    pub fn joined(username: String) -> (r: Player)
        ensures
            r@ == fresh_player(username@),
    {
        Player::new(
            username,
            Position::default(),
            Player::DEFAULT_HEIGHT,
            Rotation::default(),
            FULL_HEALTH,
            Weapon::pistol(),
        )
    }
}

} // verus!
