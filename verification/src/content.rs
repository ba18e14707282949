//! The two maps that the game ships with.

use crate::enemy::EnemyType;
use crate::item::ItemType;
use crate::map::{layout_grid, layout_rows, map_views, GameData, GameMap, MapView, WorldView};
use crate::progress::{lemma_all_live, live_count};
use crate::stats::Position;
use vstd::prelude::*;

verus! {

/// The layout of the first map: 14 columns and 10 rows, with its connection on
/// the right edge.
pub open spec fn first_layout() -> Seq<Seq<char>> {
    seq![
        "WWWWWWWWWWWWWW"@,
        "WP P P P P P W"@,
        "W WWWW P WWW W"@,
        "W P  P P   P W"@,
        "W P WWWWWW P W"@,
        "W P  P   P P C"@,
        "W WWWP WWW P W"@,
        "W P  P   P P W"@,
        "W P P P  P P W"@,
        "WWWWWWWWWWWWWW"@,
    ]
}

/// The layout of the second map: 14 columns and 10 rows, with its connection on
/// the left edge.
pub open spec fn second_layout() -> Seq<Seq<char>> {
    seq![
        "WWWWWWWWWWWWWW"@,
        "W P P P P P PW"@,
        "W W PPPPPPPP W"@,
        "W P P  P   P W"@,
        "W WWWP WWWWP W"@,
        "C P  P     P W"@,
        "W WWWWWWWW P W"@,
        "W P    P P P W"@,
        "W P PP P P P W"@,
        "WWWWWWWWWWWWWW"@,
    ]
}

/// The first map: three small goblins and a medium one, a katana and an armor.
/// Its connection at (13, 5) leads to (1, 5) on the second map.
pub open spec fn first_map() -> MapView {
    MapView::assembled(
        layout_grid(first_layout()),
        Position { x: 1, y: 1 },
        seq![(Position { x: 13, y: 5 }, (1usize, Position { x: 1, y: 5 }))],
        seq![
            (Position { x: 2, y: 3 }, ItemType::Katana),
            (Position { x: 7, y: 7 }, ItemType::Armure),
        ],
        seq![
            (Position { x: 4, y: 1 }, EnemyType::SmallGoblin),
            (Position { x: 8, y: 3 }, EnemyType::SmallGoblin),
            (Position { x: 5, y: 5 }, EnemyType::MediumGoblin),
            (Position { x: 10, y: 7 }, EnemyType::SmallGoblin),
        ],
    )
}

/// The second map: three medium goblins, a large one and the wolf, gloves and a
/// pendant. Its connection at (0, 5) leads to (12, 5) on the first map.
pub open spec fn second_map() -> MapView {
    MapView::assembled(
        layout_grid(second_layout()),
        Position { x: 1, y: 1 },
        seq![(Position { x: 0, y: 5 }, (0usize, Position { x: 12, y: 5 }))],
        seq![
            (Position { x: 10, y: 2 }, ItemType::Gants),
            (Position { x: 11, y: 7 }, ItemType::Pendentif),
        ],
        seq![
            (Position { x: 5, y: 2 }, EnemyType::MediumGoblin),
            (Position { x: 8, y: 3 }, EnemyType::MediumGoblin),
            (Position { x: 10, y: 5 }, EnemyType::LargeGoblin),
            (Position { x: 6, y: 7 }, EnemyType::MediumGoblin),
            (Position { x: 11, y: 8 }, EnemyType::Wolf),
        ],
    )
}

/// The world that the game ships with: the two maps, and the player on the first.
pub open spec fn reference_world() -> WorldView {
    WorldView { maps: seq![first_map(), second_map()], current_map_index: 0 }
}

/// The first map is well formed.
pub proof fn lemma_first_map_wf()
    ensures
        first_map().wf(),
        first_map().width == 14,
        first_map().height == 10,
        first_map().walkable(12, 5),
{
    reveal_strlit("WWWWWWWWWWWWWW");
    reveal_strlit("WP P P P P P W");
    reveal_strlit("W WWWW P WWW W");
    reveal_strlit("W P  P P   P W");
    reveal_strlit("W P WWWWWW P W");
    reveal_strlit("W P  P   P P C");
    reveal_strlit("W WWWP WWW P W");
    reveal_strlit("W P  P   P P W");
    reveal_strlit("W P P P  P P W");
    let map = first_map();
    assert(map.rectangular());
    // The one connection tile is the cell of the one connection.
    assert(map.connections[0].0 == (Position { x: 13, y: 5 }));
    assert(map.tiles_connected());
}

/// The second map is well formed.
pub proof fn lemma_second_map_wf()
    ensures
        second_map().wf(),
        second_map().width == 14,
        second_map().height == 10,
        second_map().walkable(1, 5),
{
    reveal_strlit("WWWWWWWWWWWWWW");
    reveal_strlit("W P P P P P PW");
    reveal_strlit("W W PPPPPPPP W");
    reveal_strlit("W P P  P   P W");
    reveal_strlit("W WWWP WWWWP W");
    reveal_strlit("C P  P     P W");
    reveal_strlit("W WWWWWWWW P W");
    reveal_strlit("W P    P P P W");
    reveal_strlit("W P PP P P P W");
    let map = second_map();
    assert(map.rectangular());
    // The one connection tile is the cell of the one connection.
    assert(map.connections[0].0 == (Position { x: 0, y: 5 }));
    assert(map.tiles_connected());
}

/// The world that the game ships with is well formed.
pub proof fn lemma_reference_world_wf()
    ensures
        reference_world().wf(),
{
    lemma_first_map_wf();
    lemma_second_map_wf();
    let world = reference_world();
    assert(world.connections_arrive());
    // The maps hold four items and nine enemies.
    lemma_all_live(world.maps[0].items, 0);
    lemma_all_live(world.maps[1].items, 1);
    lemma_all_live(world.maps[0].enemies, 0);
    lemma_all_live(world.maps[1].enemies, 1);
    reveal_with_fuel(live_count, 3);
}

impl GameData {
    /// The world that the game ships with: two maps of 14 columns and 10 rows, each
    /// with a connection to the other, and the player on the first.
    pub fn new() -> (data: GameData)
        ensures
            data@ == reference_world(),
    {
        let layout1: Vec<&str> = vec![
            "WWWWWWWWWWWWWW",
            "WP P P P P P W",
            "W WWWW P WWW W",
            "W P  P P   P W",
            "W P WWWWWW P W",
            "W P  P   P P C",
            "W WWWP WWW P W",
            "W P  P   P P W",
            "W P P P  P P W",
            "WWWWWWWWWWWWWW",
        ];
        let connections1 = vec![(Position { x: 13, y: 5 }, (1usize, Position { x: 1, y: 5 }))];
        let items1 = vec![
            (Position { x: 2, y: 3 }, ItemType::Katana),
            (Position { x: 7, y: 7 }, ItemType::Armure),
        ];
        let enemies1 = vec![
            (Position { x: 4, y: 1 }, EnemyType::SmallGoblin),
            (Position { x: 8, y: 3 }, EnemyType::SmallGoblin),
            (Position { x: 5, y: 5 }, EnemyType::MediumGoblin),
            (Position { x: 10, y: 7 }, EnemyType::SmallGoblin),
        ];
        proof {
            lemma_first_map_wf();
            assert(layout_rows(layout1@) =~= first_layout());
            assert(connections1@ =~= first_map().connections);
        }
        let map1 = GameMap::from_layout(
            &layout1,
            Position { x: 1, y: 1 },
            connections1,
            items1,
            enemies1,
        ).unwrap();

        let layout2: Vec<&str> = vec![
            "WWWWWWWWWWWWWW",
            "W P P P P P PW",
            "W W PPPPPPPP W",
            "W P P  P   P W",
            "W WWWP WWWWP W",
            "C P  P     P W",
            "W WWWWWWWW P W",
            "W P    P P P W",
            "W P PP P P P W",
            "WWWWWWWWWWWWWW",
        ];
        let connections2 = vec![(Position { x: 0, y: 5 }, (0usize, Position { x: 12, y: 5 }))];
        let items2 = vec![
            (Position { x: 10, y: 2 }, ItemType::Gants),
            (Position { x: 11, y: 7 }, ItemType::Pendentif),
        ];
        let enemies2 = vec![
            (Position { x: 5, y: 2 }, EnemyType::MediumGoblin),
            (Position { x: 8, y: 3 }, EnemyType::MediumGoblin),
            (Position { x: 10, y: 5 }, EnemyType::LargeGoblin),
            (Position { x: 6, y: 7 }, EnemyType::MediumGoblin),
            (Position { x: 11, y: 8 }, EnemyType::Wolf),
        ];
        proof {
            lemma_second_map_wf();
            assert(layout_rows(layout2@) =~= second_layout());
            assert(connections2@ =~= second_map().connections);
        }
        let map2 = GameMap::from_layout(
            &layout2,
            Position { x: 1, y: 1 },
            connections2,
            items2,
            enemies2,
        ).unwrap();

        let mut maps: Vec<GameMap> = Vec::new();
        maps.push(map1);
        maps.push(map2);
        proof {
            lemma_reference_world_wf();
            assert(map_views(maps@) =~= reference_world().maps);
        }
        GameData::from_maps(maps).unwrap()
    }
}

} // verus!
