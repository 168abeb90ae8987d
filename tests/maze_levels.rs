use maze_wars::maze::{
    generate_maze_level, get_maze_level, level_1, level_2, level_3, MazeLevel, SpawnPoint, Tile,
    MAZE_HEIGHT, MAZE_WIDTH,
};

fn check_shape(level: &MazeLevel) {
    assert_eq!(level.map.len(), MAZE_HEIGHT);
    for (y, row) in level.map.iter().enumerate() {
        assert_eq!(row.len(), MAZE_WIDTH);
        for (x, tile) in row.iter().enumerate() {
            if x == 0 || y == 0 || x == MAZE_WIDTH - 1 || y == MAZE_HEIGHT - 1 {
                assert_eq!(*tile, Tile::Wall);
            }
        }
    }
    assert_eq!(level.spawns.len(), 10);
}

fn walls(level: &MazeLevel) -> usize {
    level.map.iter().flatten().filter(|t| **t == Tile::Wall).count()
}

#[test]
fn level_one_layout() {
    let l = level_1();
    check_shape(&l);
    assert_eq!(l.map[7][8], Tile::Floor);
    assert_eq!(l.map[7][9], Tile::Wall);
    assert_eq!(l.map[7][10], Tile::Wall);
    assert_eq!(l.map[7][11], Tile::Floor);
    assert_eq!(l.map[3][4], Tile::Wall);
    assert_eq!(l.map[2][2], Tile::Floor);
    assert_eq!(walls(&l), 66 + 22);
    assert_eq!(l.spawns[0], SpawnPoint { x: 2, y: 2 });
    assert_eq!(l.spawns[9], SpawnPoint { x: 13, y: 9 });
}

#[test]
fn level_two_layout() {
    let l = level_2();
    check_shape(&l);
    assert_eq!(l.map[3][6], Tile::Wall);
    assert_eq!(l.map[2][2], Tile::Wall);
    assert_eq!(l.map[8][9], Tile::Wall);
    assert_eq!(l.map[9][9], Tile::Floor);
    assert_eq!(walls(&l), 66 + 37);
    assert_eq!(l.spawns[9], SpawnPoint { x: 12, y: 4 });
}

#[test]
fn level_three_layout() {
    let l = level_3();
    check_shape(&l);
    assert_eq!(l.map[7][8], Tile::Wall);
    assert_eq!(l.map[9][10], Tile::Wall);
    assert_eq!(l.map[10][10], Tile::Floor);
    assert_eq!(walls(&l), 66 + 40);
    assert_eq!(l.spawns[6], SpawnPoint { x: 2, y: 7 });
}

#[test]
fn level_index_falls_back_to_one() {
    assert_eq!(get_maze_level(0).map, level_1().map);
    assert_eq!(get_maze_level(7).map, level_1().map);
    assert_eq!(get_maze_level(2).map, level_2().map);
    assert_eq!(get_maze_level(3).spawns, level_3().spawns);
}

#[test]
fn random_level_is_one_of_three() {
    for _ in 0..10 {
        let l = generate_maze_level();
        let m = l.map;
        assert!(m == level_1().map || m == level_2().map || m == level_3().map);
    }
}
