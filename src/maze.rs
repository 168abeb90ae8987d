//! Maze levels: a fixed tile grid and an ordered list of spawn points per
//! level, the `n`-th spawn point going to the `n`-th player in join order.

use vstd::prelude::*;
use crate::game::{draw_below, LEVEL_COUNT};

verus! {

pub const MAZE_WIDTH: usize = 20;

pub const MAZE_HEIGHT: usize = 15;

/// Number of spawn points every level offers.
pub const SPAWN_COUNT: usize = 10;

#[derive(Clone, Copy, Debug, PartialEq, Eq, Structural)]
pub enum Tile {
    Wall,
    Floor,
}

/// A spawn cell, by column `x` and row `y`; the player stands at its centre.
#[derive(Clone, Copy, Debug, PartialEq, Eq, Structural)]
pub struct SpawnPoint {
    pub x: u32,
    pub y: u32,
}

/// Rows of tiles, `MAZE_HEIGHT` rows of `MAZE_WIDTH` tiles.
pub type MazeMap = Vec<Vec<Tile>>;

#[derive(Debug)]
pub struct MazeLevel {
    pub map: MazeMap,
    pub spawns: Vec<SpawnPoint>,
}

pub open spec fn grid_view(map: Seq<Vec<Tile>>) -> Seq<Seq<Tile>> {
    map.map_values(|row: Vec<Tile>| row@)
}

pub open spec fn on_border(x: int, y: int) -> bool {
    x == 0 || y == 0 || x == MAZE_WIDTH - 1 || y == MAZE_HEIGHT - 1
}

/// The walls a level places inside its border, as (row, column).
pub open spec fn obstacle_cells(level: u8) -> Seq<(usize, usize)> {
    if level == 2 {
        seq![
            (3, 5), (3, 6), (3, 7), (4, 6), (5, 6),
            (3, 12), (3, 13), (3, 14), (4, 13), (5, 13),
            (11, 5), (11, 6), (11, 7), (10, 6), (9, 6),
            (11, 12), (11, 13), (11, 14), (10, 13), (9, 13),
            (6, 9), (7, 9), (8, 9),
            (2, 2), (2, 17), (12, 2), (12, 17),
            (7, 2), (7, 3), (7, 16), (7, 17),
            (6, 4), (7, 4), (7, 5), (6, 15), (7, 15), (7, 14),
        ]
    } else if level == 3 {
        seq![
            (7, 8), (7, 9), (7, 10), (7, 11),
            (5, 10), (6, 10), (8, 10), (9, 10),
            (3, 3), (3, 4), (4, 3), (4, 4), (3, 7), (4, 7),
            (3, 15), (3, 16), (4, 15), (4, 16), (3, 12), (4, 12),
            (10, 3), (10, 4), (11, 3), (11, 4), (10, 7), (11, 7),
            (10, 15), (10, 16), (11, 15), (11, 16), (10, 12), (11, 12),
            (2, 10), (12, 10), (7, 2), (7, 17),
            (5, 5), (5, 14), (9, 5), (9, 14),
        ]
    } else {
        seq![
            (7, 9), (7, 10),
            (3, 4), (3, 5), (4, 4), (4, 5),
            (3, 14), (3, 15), (4, 14), (4, 15),
            (10, 4), (10, 5), (11, 4), (11, 5),
            (10, 14), (10, 15), (11, 14), (11, 15),
            (3, 9), (11, 9), (7, 3), (7, 16),
        ]
    }
}

pub open spec fn listed_cell(cells: Seq<(usize, usize)>, x: int, y: int) -> bool {
    exists|k: int| 0 <= k < cells.len() && #[trigger] cells[k].0 == y && cells[k].1 == x
}

pub open spec fn tile_at(level: u8, x: int, y: int) -> Tile {
    if on_border(x, y) || listed_cell(obstacle_cells(level), x, y) {
        Tile::Wall
    } else {
        Tile::Floor
    }
}

/// The full grid of a level.
pub open spec fn level_grid(level: u8) -> Seq<Seq<Tile>> {
    Seq::new(MAZE_HEIGHT as nat, |y: int| Seq::new(MAZE_WIDTH as nat, |x: int| tile_at(level, x, y)))
}

/// The spawn points of a level, in the order players take them.
pub open spec fn level_spawns(level: u8) -> Seq<SpawnPoint> {
    if level == 2 {
        seq![
            SpawnPoint { x: 2, y: 2 }, SpawnPoint { x: 17, y: 2 },
            SpawnPoint { x: 2, y: 12 }, SpawnPoint { x: 17, y: 12 },
            SpawnPoint { x: 9, y: 2 }, SpawnPoint { x: 9, y: 12 },
            SpawnPoint { x: 3, y: 7 }, SpawnPoint { x: 16, y: 7 },
            SpawnPoint { x: 9, y: 7 }, SpawnPoint { x: 12, y: 4 },
        ]
    } else {
        seq![
            SpawnPoint { x: 2, y: 2 }, SpawnPoint { x: 17, y: 2 },
            SpawnPoint { x: 2, y: 12 }, SpawnPoint { x: 17, y: 12 },
            SpawnPoint { x: 9, y: 2 }, SpawnPoint { x: 9, y: 12 },
            SpawnPoint { x: 2, y: 7 }, SpawnPoint { x: 17, y: 7 },
            SpawnPoint { x: 6, y: 5 }, SpawnPoint { x: 13, y: 9 },
        ]
    }
}

/// The level a level index stands for: 2 and 3 are themselves, anything
/// else falls back to 1.
pub open spec fn level_number(level_index: u8) -> u8 {
    if level_index == 2 || level_index == 3 {
        level_index
    } else {
        1
    }
}

impl MazeLevel {
    /// Whether this is exactly level `level`.
    pub open spec fn is_level(&self, level: u8) -> bool {
        grid_view(self.map@) == level_grid(level) && self.spawns@ == level_spawns(level)
    }
}

fn obstacles(level: u8) -> (r: Vec<(usize, usize)>)
    ensures
        r@ == obstacle_cells(level),
{
    if level == 2 {
        vec![
            (3, 5), (3, 6), (3, 7), (4, 6), (5, 6),
            (3, 12), (3, 13), (3, 14), (4, 13), (5, 13),
            (11, 5), (11, 6), (11, 7), (10, 6), (9, 6),
            (11, 12), (11, 13), (11, 14), (10, 13), (9, 13),
            (6, 9), (7, 9), (8, 9),
            (2, 2), (2, 17), (12, 2), (12, 17),
            (7, 2), (7, 3), (7, 16), (7, 17),
            (6, 4), (7, 4), (7, 5), (6, 15), (7, 15), (7, 14),
        ]
    } else if level == 3 {
        vec![
            (7, 8), (7, 9), (7, 10), (7, 11),
            (5, 10), (6, 10), (8, 10), (9, 10),
            (3, 3), (3, 4), (4, 3), (4, 4), (3, 7), (4, 7),
            (3, 15), (3, 16), (4, 15), (4, 16), (3, 12), (4, 12),
            (10, 3), (10, 4), (11, 3), (11, 4), (10, 7), (11, 7),
            (10, 15), (10, 16), (11, 15), (11, 16), (10, 12), (11, 12),
            (2, 10), (12, 10), (7, 2), (7, 17),
            (5, 5), (5, 14), (9, 5), (9, 14),
        ]
    } else {
        vec![
            (7, 9), (7, 10),
            (3, 4), (3, 5), (4, 4), (4, 5),
            (3, 14), (3, 15), (4, 14), (4, 15),
            (10, 4), (10, 5), (11, 4), (11, 5),
            (10, 14), (10, 15), (11, 14), (11, 15),
            (3, 9), (11, 9), (7, 3), (7, 16),
        ]
    }
}

fn spawn_points(level: u8) -> (r: Vec<SpawnPoint>)
    ensures
        r@ == level_spawns(level),
{
    if level == 2 {
        vec![
            SpawnPoint { x: 2, y: 2 }, SpawnPoint { x: 17, y: 2 },
            SpawnPoint { x: 2, y: 12 }, SpawnPoint { x: 17, y: 12 },
            SpawnPoint { x: 9, y: 2 }, SpawnPoint { x: 9, y: 12 },
            SpawnPoint { x: 3, y: 7 }, SpawnPoint { x: 16, y: 7 },
            SpawnPoint { x: 9, y: 7 }, SpawnPoint { x: 12, y: 4 },
        ]
    } else {
        vec![
            SpawnPoint { x: 2, y: 2 }, SpawnPoint { x: 17, y: 2 },
            SpawnPoint { x: 2, y: 12 }, SpawnPoint { x: 17, y: 12 },
            SpawnPoint { x: 9, y: 2 }, SpawnPoint { x: 9, y: 12 },
            SpawnPoint { x: 2, y: 7 }, SpawnPoint { x: 17, y: 7 },
            SpawnPoint { x: 6, y: 5 }, SpawnPoint { x: 13, y: 9 },
        ]
    }
}

/// The grid of `level`: walls around the border and at its obstacle cells,
/// floor elsewhere.
fn build_grid(level: u8) -> (r: MazeMap)
    ensures
        grid_view(r@) == level_grid(level),
{
    let cells = obstacles(level);
    let mut map: MazeMap = Vec::new();
    let mut y: usize = 0;
    while y < MAZE_HEIGHT
        invariant
            y <= MAZE_HEIGHT,
            map@.len() == y,
            cells@ == obstacle_cells(level),
            forall|r: int| 0 <= r < y ==> #[trigger] map@[r]@ == Seq::new(
                MAZE_WIDTH as nat,
                |x: int| tile_at(level, x, r),
            ),
        decreases MAZE_HEIGHT - y,
    {
        let mut row: Vec<Tile> = Vec::new();
        let mut x: usize = 0;
        while x < MAZE_WIDTH
            invariant
                x <= MAZE_WIDTH,
                y < MAZE_HEIGHT,
                row@.len() == x,
                cells@ == obstacle_cells(level),
                forall|c: int| 0 <= c < x ==> #[trigger] row@[c] == tile_at(level, c, y as int),
            decreases MAZE_WIDTH - x,
        {
            let mut wall = x == 0 || y == 0 || x == MAZE_WIDTH - 1 || y == MAZE_HEIGHT - 1;
            let mut k: usize = 0;
            while k < cells.len() && !wall
                invariant
                    k <= cells@.len(),
                    cells@ == obstacle_cells(level),
                    wall == (on_border(x as int, y as int) || exists|j: int| 0 <= j < k && #[trigger] cells@[j].0 == y && cells@[j].1 == x),
                decreases cells@.len() - k,
            {
                if cells[k].0 == y && cells[k].1 == x {
                    wall = true;
                }
                k += 1;
            }
            assert(wall == (on_border(x as int, y as int) || listed_cell(cells@, x as int, y as int)));
            row.push(if wall { Tile::Wall } else { Tile::Floor });
            x += 1;
        }
        assert(row@ =~= Seq::new(MAZE_WIDTH as nat, |c: int| tile_at(level, c, y as int)));
        map.push(row);
        y += 1;
    }
    assert(grid_view(map@) =~= level_grid(level));
    map
}

/// Level 1: an open layout with pillars and a broken central divider.
pub fn level_1() -> (r: MazeLevel)
    ensures
        r.is_level(1),
{
    MazeLevel { map: build_grid(1), spawns: spawn_points(1) }
}

/// Level 2: symmetrical T-shaped and L-shaped cover.
pub fn level_2() -> (r: MazeLevel)
    ensures
        r.is_level(2),
{
    MazeLevel { map: build_grid(2), spawns: spawn_points(2) }
}

/// Level 3: a plus-shaped centre with scattered blocks.
pub fn level_3() -> (r: MazeLevel)
    ensures
        r.is_level(3),
{
    MazeLevel { map: build_grid(3), spawns: spawn_points(3) }
}

/// The level with the given index, falling back to level 1 for an index
/// that names none.
pub fn get_maze_level(level_index: u8) -> (r: MazeLevel)
    ensures
        r.is_level(level_number(level_index)),
        r.spawns@.len() == SPAWN_COUNT,
{
    match level_index {
        2 => level_2(),
        3 => level_3(),
        _ => level_1(),
    }
}

/// One of the levels, picked at random.
pub fn generate_maze_level() -> (r: MazeLevel)
    ensures
        exists|level: u8| 1 <= level <= LEVEL_COUNT && r.is_level(level),
{
    let level = draw_below(LEVEL_COUNT) + 1;
    let r = get_maze_level(level);
    assert(r.is_level(level_number(level)));
    r
}

} // verus!
