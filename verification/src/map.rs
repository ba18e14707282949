//! Maps and the world catalog: the tile grid of each map, what is placed on it,
//! and how the maps are connected.

use crate::enemy::EnemyType;
use crate::item::ItemType;
use crate::placement::{distinct_cells, entry_at, find_at, has_distinct_cells, occupied};
use crate::progress::{lemma_all_live, live_count};
use crate::stats::Position;
use vstd::prelude::*;

verus! {

/// The kinds of tile that make up a map.
#[derive(Clone, Copy, Debug, PartialEq, Eq, Structural)]
pub enum Tile {
    /// Cannot be walked on.
    Wall,
    /// Can be walked on.
    Path,
    /// Can be walked on, and leads to another map.
    Connection,
}

/// The tile that a character of a layout stands for: `W` is a wall, `C` a
/// connection and anything else a path.
pub open spec fn tile_of(c: char) -> Tile {
    if c == 'W' {
        Tile::Wall
    } else if c == 'C' {
        Tile::Connection
    } else {
        Tile::Path
    }
}

/// The grid that a layout stands for: one row of tiles for each row of characters.
pub open spec fn layout_grid(rows: Seq<Seq<char>>) -> Seq<Seq<Tile>> {
    rows.map_values(|row: Seq<char>| row.map_values(|c: char| tile_of(c)))
}

/// The grid of a map as a sequence of rows of tiles.
pub open spec fn grid_view(grid: Seq<Vec<Tile>>) -> Seq<Seq<Tile>> {
    grid.map_values(|row: Vec<Tile>| row@)
}

/// A map as a mathematical value.
pub struct MapView {
    /// The tiles, row by row from the top.
    pub grid: Seq<Seq<Tile>>,
    /// The number of columns.
    pub width: usize,
    /// The number of rows.
    pub height: usize,
    /// Where a new player stands.
    pub player_start: Position,
    /// For the cell of each connection, the index of the map that it leads to and
    /// the cell of that map on which the player arrives.
    pub connections: Seq<(Position, (usize, Position))>,
    /// The items placed on the map.
    pub items: Seq<(Position, ItemType)>,
    /// The enemies placed on the map.
    pub enemies: Seq<(Position, EnemyType)>,
}

impl MapView {
    /// The map made of the given parts. Its height is the number of rows and its
    /// width the length of the first row.
    pub open spec fn assembled(
        grid: Seq<Seq<Tile>>,
        player_start: Position,
        connections: Seq<(Position, (usize, Position))>,
        items: Seq<(Position, ItemType)>,
        enemies: Seq<(Position, EnemyType)>,
    ) -> MapView {
        MapView {
            grid,
            width: if grid.len() > 0 {
                grid[0].len() as usize
            } else {
                0
            },
            height: grid.len() as usize,
            player_start,
            connections,
            items,
            enemies,
        }
    }

    /// Whether the cell lies on the grid.
    pub open spec fn in_bounds(self, cell: Position) -> bool {
        cell.x < self.width && cell.y < self.height
    }

    /// The tile of a cell of the grid.
    pub open spec fn tile(self, cell: Position) -> Tile {
        self.grid[cell.y as int][cell.x as int]
    }

    /// Whether column `x` of row `y` lies on the grid and is not a wall.
    pub open spec fn walkable(self, x: int, y: int) -> bool {
        &&& 0 <= y < self.grid.len()
        &&& 0 <= x < self.grid[y].len()
        &&& self.grid[y][x] != Tile::Wall
    }

    /// Where the connection of a cell leads, if the cell has one.
    pub open spec fn destination(self, cell: Position) -> Option<(usize, Position)> {
        entry_at(self.connections, cell)
    }

    /// Whether every row of the grid has `width` tiles, and there are `height` rows.
    pub open spec fn rectangular(self) -> bool {
        &&& self.grid.len() == self.height
        &&& forall|y: int|
            0 <= y < self.grid.len() ==> (#[trigger] self.grid[y]).len() == self.width
    }

    /// Whether every connection is listed for a cell whose tile is a connection.
    pub open spec fn connections_on_tiles(self) -> bool {
        forall|i: int|
            0 <= i < self.connections.len() ==> {
                let cell = (#[trigger] self.connections[i]).0;
                self.in_bounds(cell) && self.tile(cell) == Tile::Connection
            }
    }

    /// Whether every connection tile has a connection listed for it.
    pub open spec fn tiles_connected(self) -> bool {
        forall|cell: Position|
            self.in_bounds(cell) && #[trigger] self.tile(cell) == Tile::Connection ==> occupied(
                self.connections,
                cell,
            )
    }

    /// What holds of every map:
    /// the grid is a rectangle with at least one cell, the player starts on a
    /// walkable cell, the connection tiles are exactly the cells for which a
    /// connection is listed, and no cell holds two connections, two items or two
    /// enemies.
    pub open spec fn wf(self) -> bool {
        &&& self.width >= 1
        &&& self.height >= 1
        &&& self.rectangular()
        &&& self.walkable(self.player_start.x as int, self.player_start.y as int)
        &&& self.connections_on_tiles()
        &&& self.tiles_connected()
        &&& distinct_cells(self.connections)
        &&& distinct_cells(self.items)
        &&& distinct_cells(self.enemies)
    }
}

/// One map: a grid of tiles and what is placed on it. A map never changes; the
/// items and enemies listed here are where the game places them, not what is left
/// of them.
pub struct GameMap {
    grid: Vec<Vec<Tile>>,
    player_start: Position,
    width: usize,
    height: usize,
    connections: Vec<(Position, (usize, Position))>,
    items: Vec<(Position, ItemType)>,
    enemies: Vec<(Position, EnemyType)>,
}

impl View for GameMap {
    type V = MapView;

    closed spec fn view(&self) -> MapView {
        MapView {
            grid: grid_view(self.grid@),
            width: self.width,
            height: self.height,
            player_start: self.player_start,
            connections: self.connections@,
            items: self.items@,
            enemies: self.enemies@,
        }
    }
}

/// Reads one character of a layout.
pub fn parse_tile(c: char) -> (tile: Tile)
    ensures
        tile == tile_of(c),
{
    if c == 'W' {
        Tile::Wall
    } else if c == 'C' {
        Tile::Connection
    } else {
        Tile::Path
    }
}

/// Reads one row of a layout.
pub fn parse_row(row: &str) -> (tiles: Vec<Tile>)
    ensures
        tiles@ == row@.map_values(|c: char| tile_of(c)),
{
    let mut tiles: Vec<Tile> = Vec::new();
    for c in it: row.chars()
        invariant
            it.seq() == row@,
            tiles@.len() == it.index(),
            forall|i: int| 0 <= i < it.index() ==> #[trigger] tiles@[i] == tile_of(row@[i]),
    {
        tiles.push(parse_tile(c));
    }
    tiles
}

/// The rows of a layout as sequences of characters.
pub open spec fn layout_rows(rows: Seq<&str>) -> Seq<Seq<char>> {
    rows.map_values(|row: &str| row@)
}

/// Reads a layout, row by row.
pub fn parse_layout(rows: &Vec<&str>) -> (grid: Vec<Vec<Tile>>)
    ensures
        grid_view(grid@) == layout_grid(layout_rows(rows@)),
{
    let mut grid: Vec<Vec<Tile>> = Vec::new();
    let mut y: usize = 0;
    while y < rows.len()
        invariant
            y <= rows@.len(),
            grid@.len() == y,
            forall|j: int|
                0 <= j < y ==> (#[trigger] grid@[j])@ == rows@[j]@.map_values(
                    |c: char| tile_of(c),
                ),
        decreases rows@.len() - y,
    {
        grid.push(parse_row(rows[y]));
        y = y + 1;
    }
    grid
}

/// The parts of a map, before they are known to make up a well-formed one.
struct MapDraft {
    grid: Vec<Vec<Tile>>,
    player_start: Position,
    width: usize,
    height: usize,
    connections: Vec<(Position, (usize, Position))>,
    items: Vec<(Position, ItemType)>,
    enemies: Vec<(Position, EnemyType)>,
}

impl View for MapDraft {
    type V = MapView;

    closed spec fn view(&self) -> MapView {
        MapView {
            grid: grid_view(self.grid@),
            width: self.width,
            height: self.height,
            player_start: self.player_start,
            connections: self.connections@,
            items: self.items@,
            enemies: self.enemies@,
        }
    }
}

impl MapDraft {
    /// Whether every row of the grid has `width` tiles.
    fn check_rectangular(&self) -> (ok: bool)
        requires
            self@.grid.len() == self@.height,
        ensures
            ok == self@.rectangular(),
    {
        let mut y: usize = 0;
        while y < self.grid.len()
            invariant
                y <= self.grid@.len(),
                self@.grid.len() == self@.height,
                forall|j: int| 0 <= j < y ==> (#[trigger] self@.grid[j]).len() == self@.width,
            decreases self.grid@.len() - y,
        {
            if self.grid[y].len() != self.width {
                assert(self@.grid[y as int].len() != self@.width);
                return false;
            }
            y = y + 1;
        }
        true
    }

    /// Whether every connection is listed for a cell whose tile is a connection.
    fn check_connections_on_tiles(&self) -> (ok: bool)
        requires
            self@.rectangular(),
        ensures
            ok == self@.connections_on_tiles(),
    {
        let mut i: usize = 0;
        while i < self.connections.len()
            invariant
                i <= self.connections@.len(),
                self@.rectangular(),
                forall|j: int|
                    0 <= j < i ==> {
                        let cell = (#[trigger] self@.connections[j]).0;
                        self@.in_bounds(cell) && self@.tile(cell) == Tile::Connection
                    },
            decreases self.connections@.len() - i,
        {
            let cell = self.connections[i].0;
            if cell.x >= self.width || cell.y >= self.height {
                return false;
            }
            if self.grid[cell.y][cell.x] != Tile::Connection {
                return false;
            }
            i = i + 1;
        }
        true
    }

    /// Whether every connection tile has a connection listed for it.
    fn check_tiles_connected(&self) -> (ok: bool)
        requires
            self@.rectangular(),
        ensures
            ok == self@.tiles_connected(),
    {
        let mut y: usize = 0;
        while y < self.height
            invariant
                y <= self.height,
                self@.rectangular(),
                forall|cell: Position|
                    cell.y < y && cell.x < self.width && #[trigger] self@.tile(cell)
                        == Tile::Connection ==> occupied(self@.connections, cell),
            decreases self.height - y,
        {
            let mut x: usize = 0;
            while x < self.width
                invariant
                    x <= self.width,
                    y < self.height,
                    self@.rectangular(),
                    self@.grid[y as int].len() == self@.width,
                    forall|cell: Position|
                        cell.y < y && cell.x < self.width && #[trigger] self@.tile(cell)
                            == Tile::Connection ==> occupied(self@.connections, cell),
                    forall|cell: Position|
                        cell.y == y && cell.x < x && #[trigger] self@.tile(cell)
                            == Tile::Connection ==> occupied(self@.connections, cell),
                decreases self.width - x,
            {
                if self.grid[y][x] == Tile::Connection {
                    let cell = Position { x, y };
                    if find_at(&self.connections, cell).is_none() {
                        assert(self@.in_bounds(cell) && self@.tile(cell) == Tile::Connection);
                        return false;
                    }
                }
                x = x + 1;
            }
            y = y + 1;
        }
        true
    }

    /// Whether the parts make up a well-formed map.
    fn check(&self) -> (ok: bool)
        requires
            self@.grid.len() == self@.height,
        ensures
            ok == self@.wf(),
    {
        if self.width < 1 || self.height < 1 {
            return false;
        }
        if !self.check_rectangular() {
            return false;
        }
        let start = self.player_start;
        if start.y >= self.height || start.x >= self.width {
            return false;
        }
        if self.grid[start.y][start.x] == Tile::Wall {
            return false;
        }
        self.check_connections_on_tiles() && self.check_tiles_connected() && has_distinct_cells(
            &self.connections,
        ) && has_distinct_cells(&self.items) && has_distinct_cells(&self.enemies)
    }
}

impl GameMap {
    /// Every map is well formed.
    #[verifier::type_invariant]
    pub open spec fn well_formed(&self) -> bool {
        self@.wf()
    }

    /// Builds a map from its parts, if they make up a well-formed map: see
    /// `MapView::wf`. The height is the number of rows of the grid and the width
    /// the length of its first row.
    pub fn new(
        grid: Vec<Vec<Tile>>,
        player_start: Position,
        connections: Vec<(Position, (usize, Position))>,
        items: Vec<(Position, ItemType)>,
        enemies: Vec<(Position, EnemyType)>,
    ) -> (map: Option<GameMap>)
        ensures
            map is Some <==> MapView::assembled(
                grid_view(grid@),
                player_start,
                connections@,
                items@,
                enemies@,
            ).wf(),
            map is Some ==> map->0@ == MapView::assembled(
                grid_view(grid@),
                player_start,
                connections@,
                items@,
                enemies@,
            ),
    {
        let height = grid.len();
        let width = if height > 0 {
            grid[0].len()
        } else {
            0
        };
        let draft = MapDraft { grid, player_start, width, height, connections, items, enemies };
        if draft.check() {
            Some(
                GameMap {
                    grid: draft.grid,
                    player_start: draft.player_start,
                    width: draft.width,
                    height: draft.height,
                    connections: draft.connections,
                    items: draft.items,
                    enemies: draft.enemies,
                },
            )
        } else {
            None
        }
    }

    /// Builds a map from a layout, one string for each row of the grid, and the
    /// other parts, if they make up a well-formed map. In a layout `W` is a wall,
    /// `C` a connection and any other character a path.
    pub fn from_layout(
        rows: &Vec<&str>,
        player_start: Position,
        connections: Vec<(Position, (usize, Position))>,
        items: Vec<(Position, ItemType)>,
        enemies: Vec<(Position, EnemyType)>,
    ) -> (map: Option<GameMap>)
        ensures
            map is Some <==> MapView::assembled(
                layout_grid(layout_rows(rows@)),
                player_start,
                connections@,
                items@,
                enemies@,
            ).wf(),
            map is Some ==> map->0@ == MapView::assembled(
                layout_grid(layout_rows(rows@)),
                player_start,
                connections@,
                items@,
                enemies@,
            ),
    {
        let grid = parse_layout(rows);
        GameMap::new(grid, player_start, connections, items, enemies)
    }

    /// The number of columns of the grid.
    pub fn width(&self) -> (width: usize)
        ensures
            width == self@.width,
    {
        self.width
    }

    /// The number of rows of the grid.
    pub fn height(&self) -> (height: usize)
        ensures
            height == self@.height,
    {
        self.height
    }

    /// The cell on which a new player stands.
    pub fn player_start(&self) -> (start: Position)
        ensures
            start == self@.player_start,
    {
        self.player_start
    }

    /// The items placed on the map.
    pub fn items(&self) -> (items: &Vec<(Position, ItemType)>)
        ensures
            items@ == self@.items,
    {
        &self.items
    }

    /// The enemies placed on the map.
    pub fn enemies(&self) -> (enemies: &Vec<(Position, EnemyType)>)
        ensures
            enemies@ == self@.enemies,
    {
        &self.enemies
    }

    /// The connections of the map.
    pub fn connections(&self) -> (connections: &Vec<(Position, (usize, Position))>)
        ensures
            connections@ == self@.connections,
    {
        &self.connections
    }

    /// The tiles of the map, row by row from the top.
    pub fn grid(&self) -> (grid: &Vec<Vec<Tile>>)
        ensures
            grid_view(grid@) == self@.grid,
    {
        &self.grid
    }

    /// The tile of a cell, or nothing when the cell lies off the grid.
    pub fn tile(&self, x: usize, y: usize) -> (tile: Option<Tile>)
        ensures
            tile == (if self@.in_bounds(Position { x, y }) {
                Some(self@.tile(Position { x, y }))
            } else {
                None
            }),
    {
        proof {
            use_type_invariant(self);
        }
        if y >= self.height || x >= self.width {
            return None;
        }
        Some(self.grid[y][x])
    }

    /// Whether the cell in column `x` of row `y` can be walked on: it lies on the
    /// grid and is not a wall.
    pub fn is_walkable(&self, x: usize, y: usize) -> (walkable: bool)
        ensures
            walkable == self@.walkable(x as int, y as int),
    {
        if y >= self.grid.len() || x >= self.grid[y].len() {
            return false;
        }
        matches!(self.grid[y][x], Tile::Path | Tile::Connection)
    }

    /// Where the connection of a cell leads: the index of a map and the cell of
    /// arrival, or nothing when the cell has no connection.
    pub fn destination(&self, cell: Position) -> (destination: Option<(usize, Position)>)
        ensures
            destination == self@.destination(cell),
    {
        match find_at(&self.connections, cell) {
            Some(i) => Some(self.connections[i].1),
            None => None,
        }
    }
}

/// The largest number of items, and of enemies, that the maps of one world may
/// hold together.
pub const MAX_PLACEMENTS: usize = 1_000_000;

/// A world catalog as a mathematical value.
pub struct WorldView {
    /// The maps, in the order of their indices.
    pub maps: Seq<MapView>,
    /// The index of the map that the player is on.
    pub current_map_index: usize,
}

impl WorldView {
    /// The map that the player is on.
    pub open spec fn current_map(self) -> MapView {
        self.maps[self.current_map_index as int]
    }

    /// The items placed on each map.
    pub open spec fn item_placements(self) -> Seq<Seq<(Position, ItemType)>> {
        self.maps.map_values(|map: MapView| map.items)
    }

    /// The enemies placed on each map.
    pub open spec fn enemy_placements(self) -> Seq<Seq<(Position, EnemyType)>> {
        self.maps.map_values(|map: MapView| map.enemies)
    }

    /// The number of items, on all maps together, that are not in `collected`.
    pub open spec fn items_left(self, collected: Set<(usize, Position)>) -> nat {
        live_count(self.item_placements(), collected, self.maps.len() as int)
    }

    /// The number of enemies, on all maps together, that are not in `defeated`.
    pub open spec fn enemies_left(self, defeated: Set<(usize, Position)>) -> nat {
        live_count(self.enemy_placements(), defeated, self.maps.len() as int)
    }

    /// Whether a destination is a walkable cell of a map of this world.
    pub open spec fn arrives(self, destination: (usize, Position)) -> bool {
        &&& destination.0 < self.maps.len()
        &&& self.maps[destination.0 as int].walkable(
            destination.1.x as int,
            destination.1.y as int,
        )
    }

    /// Whether every connection of every map leads to a walkable cell of a map of
    /// this world.
    pub open spec fn connections_arrive(self) -> bool {
        forall|m: int, i: int|
            0 <= m < self.maps.len() && 0 <= i < self.maps[m].connections.len() ==> self.arrives(
                (#[trigger] self.maps[m].connections[i]).1,
            )
    }

    /// What holds of every world:
    /// it has a map, the current map is one of its maps, every map is well
    /// formed, every connection leads to a walkable cell of one of the maps, and
    /// the maps hold no more than `MAX_PLACEMENTS` items and as many enemies.
    pub open spec fn wf(self) -> bool {
        &&& self.maps.len() >= 1
        &&& self.current_map_index < self.maps.len()
        &&& forall|m: int| 0 <= m < self.maps.len() ==> (#[trigger] self.maps[m]).wf()
        &&& self.connections_arrive()
        &&& self.items_left(Set::empty()) <= MAX_PLACEMENTS
        &&& self.enemies_left(Set::empty()) <= MAX_PLACEMENTS
    }
}

/// The maps of a world as mathematical values.
pub open spec fn map_views(maps: Seq<GameMap>) -> Seq<MapView> {
    maps.map_values(|map: GameMap| map@)
}

/// The world catalog: all the maps of the game, and which of them the player is on.
pub struct GameData {
    maps: Vec<GameMap>,
    current_map_index: usize,
}

impl View for GameData {
    type V = WorldView;

    closed spec fn view(&self) -> WorldView {
        WorldView { maps: map_views(self.maps@), current_map_index: self.current_map_index }
    }
}

/// Whether every connection of every map leads to a walkable cell of one of the
/// maps.
fn check_connections_arrive(maps: &Vec<GameMap>) -> (ok: bool)
    ensures
        ok == (WorldView { maps: map_views(maps@), current_map_index: 0 }).connections_arrive(),
{
    let ghost world = WorldView { maps: map_views(maps@), current_map_index: 0 };
    let mut m: usize = 0;
    while m < maps.len()
        invariant
            m <= maps@.len(),
            world == (WorldView { maps: map_views(maps@), current_map_index: 0 }),
            forall|a: int, i: int|
                0 <= a < m && 0 <= i < world.maps[a].connections.len() ==> world.arrives(
                    (#[trigger] world.maps[a].connections[i]).1,
                ),
        decreases maps@.len() - m,
    {
        let connections = maps[m].connections();
        let mut i: usize = 0;
        while i < connections.len()
            invariant
                m < maps@.len(),
                i <= connections@.len(),
                connections@ == world.maps[m as int].connections,
                world == (WorldView { maps: map_views(maps@), current_map_index: 0 }),
                forall|a: int, i: int|
                    0 <= a < m && 0 <= i < world.maps[a].connections.len() ==> world.arrives(
                        (#[trigger] world.maps[a].connections[i]).1,
                    ),
                forall|j: int|
                    0 <= j < i ==> world.arrives(
                        (#[trigger] world.maps[m as int].connections[j]).1,
                    ),
            decreases connections@.len() - i,
        {
            let destination = connections[i].1;
            if destination.0 >= maps.len() {
                return false;
            }
            if !maps[destination.0].is_walkable(destination.1.x, destination.1.y) {
                return false;
            }
            i = i + 1;
        }
        m = m + 1;
    }
    true
}

/// Whether the maps hold no more than `MAX_PLACEMENTS` items together.
fn check_item_count(maps: &Vec<GameMap>) -> (ok: bool)
    ensures
        ok == ((WorldView { maps: map_views(maps@), current_map_index: 0 }).items_left(Set::empty())
            <= MAX_PLACEMENTS),
{
    let ghost world = WorldView { maps: map_views(maps@), current_map_index: 0 };
    let mut total: usize = 0;
    let mut m: usize = 0;
    while m < maps.len()
        invariant
            m <= maps@.len(),
            world == (WorldView { maps: map_views(maps@), current_map_index: 0 }),
            total == live_count(world.item_placements(), Set::empty(), m as int),
            total <= MAX_PLACEMENTS,
        decreases maps@.len() - m,
    {
        let count = maps[m].items().len();
        proof {
            lemma_all_live(world.item_placements()[m as int], m);
        }
        if count > MAX_PLACEMENTS - total {
            proof {
                lemma_live_count_grows(world.item_placements(), m + 1, maps@.len() as int);
            }
            return false;
        }
        total = total + count;
        m = m + 1;
    }
    true
}

/// Whether the maps hold no more than `MAX_PLACEMENTS` enemies together.
fn check_enemy_count(maps: &Vec<GameMap>) -> (ok: bool)
    ensures
        ok == ((WorldView { maps: map_views(maps@), current_map_index: 0 }).enemies_left(
            Set::empty(),
        ) <= MAX_PLACEMENTS),
{
    let ghost world = WorldView { maps: map_views(maps@), current_map_index: 0 };
    let mut total: usize = 0;
    let mut m: usize = 0;
    while m < maps.len()
        invariant
            m <= maps@.len(),
            world == (WorldView { maps: map_views(maps@), current_map_index: 0 }),
            total == live_count(world.enemy_placements(), Set::empty(), m as int),
            total <= MAX_PLACEMENTS,
        decreases maps@.len() - m,
    {
        let count = maps[m].enemies().len();
        proof {
            lemma_all_live(world.enemy_placements()[m as int], m);
        }
        if count > MAX_PLACEMENTS - total {
            proof {
                lemma_live_count_grows(world.enemy_placements(), m + 1, maps@.len() as int);
            }
            return false;
        }
        total = total + count;
        m = m + 1;
    }
    true
}

/// The live placements of more maps are no fewer.
proof fn lemma_live_count_grows<K>(placements: Seq<Seq<(Position, K)>>, few: int, many: int)
    requires
        few <= many,
    ensures
        live_count(placements, Set::empty(), few) <= live_count(placements, Set::empty(), many),
    decreases many - few,
{
    if few < many {
        lemma_live_count_grows(placements, few, many - 1);
    }
}

/// Whether every map of the list is well formed. Every map is: this makes it known.
fn note_maps_well_formed(maps: &Vec<GameMap>)
    ensures
        forall|m: int| 0 <= m < maps@.len() ==> (#[trigger] map_views(maps@)[m]).wf(),
{
    let mut m: usize = 0;
    while m < maps.len()
        invariant
            m <= maps@.len(),
            forall|a: int| 0 <= a < m ==> (#[trigger] map_views(maps@)[a]).wf(),
        decreases maps@.len() - m,
    {
        let map = &maps[m];
        proof {
            use_type_invariant(map);
        }
        m = m + 1;
    }
}

impl GameData {
    /// Every world catalog is well formed.
    #[verifier::type_invariant]
    pub open spec fn well_formed(&self) -> bool {
        self@.wf()
    }

    /// Builds the world of the given maps, with the player on the first of them,
    /// if they make up a well-formed world: see `WorldView::wf`.
    pub fn from_maps(maps: Vec<GameMap>) -> (data: Option<GameData>)
        ensures
            data is Some <==> (WorldView { maps: map_views(maps@), current_map_index: 0 }).wf(),
            data is Some ==> data->0@ == (WorldView {
                maps: map_views(maps@),
                current_map_index: 0,
            }),
    {
        if maps.len() < 1 {
            return None;
        }
        note_maps_well_formed(&maps);
        if check_connections_arrive(&maps) && check_item_count(&maps) && check_enemy_count(&maps) {
            Some(GameData { maps, current_map_index: 0 })
        } else {
            None
        }
    }

    /// The map that the player is on.
    pub fn get_current_map(&self) -> (map: &GameMap)
        ensures
            map@ == self@.current_map(),
    {
        proof {
            use_type_invariant(self);
        }
        &self.maps[self.current_map_index]
    }

    /// The index of the map that the player is on.
    pub fn current_map_index(&self) -> (index: usize)
        ensures
            index == self@.current_map_index,
            index < self@.maps.len(),
    {
        proof {
            use_type_invariant(self);
        }
        self.current_map_index
    }

    /// The number of maps.
    pub fn map_count(&self) -> (count: usize)
        ensures
            count == self@.maps.len(),
    {
        self.maps.len()
    }

    /// The map of the given index, if there is one.
    pub fn get_map(&self, index: usize) -> (map: Option<&GameMap>)
        ensures
            map is Some <==> index < self@.maps.len(),
            map is Some ==> map->0@ == self@.maps[index as int],
    {
        if index < self.maps.len() {
            Some(&self.maps[index])
        } else {
            None
        }
    }

    /// Puts the player on the map of the given index.
    pub(crate) fn enter_map(&mut self, index: usize)
        requires
            index < old(self)@.maps.len(),
        ensures
            final(self)@ == (WorldView { current_map_index: index, ..old(self)@ }),
    {
        proof {
            use_type_invariant(&*self);
        }
        self.current_map_index = index;
    }
}

} // verus!
