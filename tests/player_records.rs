use maze_wars::addr::{IpAddress, PeerAddr};
use maze_wars::player::{Player, Weapon, PISTOL_FIRE_RATE_BITS, PISTOL_RANGE_BITS};
use maze_wars::registry::{JoinError, Registry};
use maze_wars::scalar::{Position, Rotation, Scalar};

fn peer(n: u16) -> PeerAddr {
    PeerAddr::new(IpAddress::V6(1), n)
}

#[test]
fn pistol_stats() {
    let w = Weapon::pistol();
    assert_eq!(w.name, "Pistol");
    assert_eq!(w.damage, 25);
    assert_eq!(w.ammo_count, 12);
    assert_eq!(PISTOL_FIRE_RATE_BITS, 1.5f32.to_bits());
    assert_eq!(PISTOL_RANGE_BITS, 30.0f32.to_bits());
    assert_eq!(w.fire_rate.to_bits(), 1.5f32.to_bits());
    assert_eq!(w.range.to_bits(), 30.0f32.to_bits());
}

#[test]
fn new_player_keeps_fields() {
    let p = Player::new(
        "zed".to_string(),
        Position::new(Scalar::from_bits(1), Scalar::zero(), Scalar::zero()),
        170,
        Rotation::default(),
        55,
        Weapon::pistol(),
    );
    assert_eq!(p.username, "zed");
    assert_eq!(p.height, 170);
    assert_eq!(p.health, 55);
    let j = Player::joined("amy".to_string());
    assert_eq!(j.height, Player::DEFAULT_HEIGHT);
    assert_eq!(j.health, 100);
    assert_eq!(j.position, Position::default());
}

#[test]
fn registry_operations() {
    let mut r = Registry::new();
    assert_eq!(r.register(peer(1), "a".to_string(), 2), Ok(()));
    assert_eq!(r.register(peer(2), "a".to_string(), 2), Err(JoinError::DuplicateUsername));
    assert_eq!(r.register(peer(2), "b".to_string(), 2), Ok(()));
    assert_eq!(r.register(peer(3), "c".to_string(), 2), Err(JoinError::ServerFull));
    assert_eq!(r.find_by_addr(peer(2)), Some(1));
    assert_eq!(r.find_by_username(&"a".to_string()), Some(0));
    assert_eq!(r.usernames(), vec!["a".to_string(), "b".to_string()]);
    assert_eq!(r.addresses(), vec![peer(1), peer(2)]);
    let moved = Position::new(Scalar::from_bits(7), Scalar::zero(), Scalar::zero());
    assert_eq!(r.update_transform(peer(2), moved, Rotation::default()), Some(1));
    assert_eq!(r.player(1).position, moved);
    assert_eq!(r.update_transform(peer(9), moved, Rotation::default()), None);
    assert_eq!(r.sole_survivor(), None);
    assert_eq!(r.apply_damage(&"a".to_string(), 200), Some(0));
    assert_eq!(r.sole_survivor(), Some(1));
    let gone = r.remove(peer(1)).unwrap();
    assert_eq!(gone.username, "a");
    assert!(r.remove(peer(1)).is_none());
    assert_eq!(r.len(), 1);
    assert_eq!(r.address(0), peer(2));
}
