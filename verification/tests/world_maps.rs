use elden_world::enemy::EnemyType;
use elden_world::item::ItemType;
use elden_world::map::{parse_layout, parse_row, parse_tile, GameData, GameMap, Tile};
use elden_world::stats::Position;

fn cell(x: usize, y: usize) -> Position {
    Position { x, y }
}

fn corridor_rows() -> Vec<&'static str> {
    vec!["WWWWWWW", "WP    C", "WWWWWWW"]
}

fn corridor() -> Option<GameMap> {
    GameMap::from_layout(
        &corridor_rows(),
        cell(1, 1),
        vec![(cell(6, 1), (0, cell(1, 1)))],
        vec![(cell(2, 1), ItemType::Armure)],
        vec![(cell(4, 1), EnemyType::SmallGoblin)],
    )
}

#[test]
fn layout_characters_stand_for_tiles() {
    assert_eq!(parse_tile('W'), Tile::Wall);
    assert_eq!(parse_tile('C'), Tile::Connection);
    assert_eq!(parse_tile('P'), Tile::Path);
    assert_eq!(parse_tile(' '), Tile::Path);
    assert_eq!(parse_tile('w'), Tile::Path);
    assert_eq!(parse_row("WP C"), vec![Tile::Wall, Tile::Path, Tile::Path, Tile::Connection]);
    assert_eq!(parse_row(""), Vec::<Tile>::new());
    assert_eq!(
        parse_layout(&vec!["WW", "PC"]),
        vec![vec![Tile::Wall, Tile::Wall], vec![Tile::Path, Tile::Connection]]
    );
}

#[test]
fn reference_world_has_two_maps_of_fourteen_by_ten() {
    let world = GameData::new();
    assert_eq!(world.map_count(), 2);
    assert_eq!(world.current_map_index(), 0);
    for index in 0..2 {
        let map = world.get_map(index).unwrap();
        assert_eq!(map.width(), 14);
        assert_eq!(map.height(), 10);
        assert_eq!(map.player_start(), cell(1, 1));
        assert_eq!(map.grid().len(), 10);
        for row in map.grid() {
            assert_eq!(row.len(), 14);
        }
        for x in 0..14 {
            assert_eq!(map.tile(x, 0), Some(Tile::Wall));
            assert_eq!(map.tile(x, 9), Some(Tile::Wall));
        }
    }
    assert!(world.get_map(2).is_none());
}

#[test]
fn reference_world_first_map_content() {
    let world = GameData::new();
    let map = world.get_current_map();
    assert_eq!(map.connections(), &vec![(cell(13, 5), (1, cell(1, 5)))]);
    assert_eq!(
        map.items(),
        &vec![(cell(2, 3), ItemType::Katana), (cell(7, 7), ItemType::Armure)]
    );
    assert_eq!(
        map.enemies(),
        &vec![
            (cell(4, 1), EnemyType::SmallGoblin),
            (cell(8, 3), EnemyType::SmallGoblin),
            (cell(5, 5), EnemyType::MediumGoblin),
            (cell(10, 7), EnemyType::SmallGoblin),
        ]
    );
    assert_eq!(map.tile(13, 5), Some(Tile::Connection));
    assert_eq!(map.tile(1, 1), Some(Tile::Path));
    assert_eq!(map.tile(2, 2), Some(Tile::Wall));
    assert_eq!(map.tile(6, 2), Some(Tile::Path));
    assert_eq!(map.tile(0, 5), Some(Tile::Wall));
    assert_eq!(map.destination(cell(13, 5)), Some((1, cell(1, 5))));
    assert_eq!(map.destination(cell(12, 5)), None);
    let connections = (0..10).flat_map(|y| (0..14).map(move |x| (x, y)))
        .filter(|&(x, y)| map.tile(x, y) == Some(Tile::Connection))
        .count();
    assert_eq!(connections, 1);
}

#[test]
fn reference_world_second_map_content() {
    let world = GameData::new();
    let map = world.get_map(1).unwrap();
    assert_eq!(map.connections(), &vec![(cell(0, 5), (0, cell(12, 5)))]);
    assert_eq!(
        map.items(),
        &vec![(cell(10, 2), ItemType::Gants), (cell(11, 7), ItemType::Pendentif)]
    );
    assert_eq!(
        map.enemies(),
        &vec![
            (cell(5, 2), EnemyType::MediumGoblin),
            (cell(8, 3), EnemyType::MediumGoblin),
            (cell(10, 5), EnemyType::LargeGoblin),
            (cell(6, 7), EnemyType::MediumGoblin),
            (cell(11, 8), EnemyType::Wolf),
        ]
    );
    assert_eq!(map.tile(0, 5), Some(Tile::Connection));
    assert_eq!(map.tile(12, 1), Some(Tile::Path));
    assert_eq!(map.tile(10, 2), Some(Tile::Path));
    assert_eq!(map.tile(2, 2), Some(Tile::Wall));
    assert!(map.is_walkable(10, 2));
    assert!(map.is_walkable(1, 5));
    assert_eq!(map.destination(cell(0, 5)), Some((0, cell(12, 5))));
}

#[test]
fn walls_and_cells_off_the_grid_cannot_be_walked_on() {
    let world = GameData::new();
    let map = world.get_current_map();
    assert!(map.is_walkable(1, 1));
    assert!(map.is_walkable(13, 5));
    assert!(map.is_walkable(12, 8));
    assert!(!map.is_walkable(0, 0));
    assert!(!map.is_walkable(13, 4));
    assert!(!map.is_walkable(14, 5));
    assert!(!map.is_walkable(1, 10));
    assert!(!map.is_walkable(usize::MAX, 1));
    assert!(!map.is_walkable(1, usize::MAX));
    assert_eq!(map.tile(14, 5), None);
    assert_eq!(map.tile(5, 10), None);
}

#[test]
fn well_formed_parts_make_a_map() {
    let map = corridor().unwrap();
    assert_eq!(map.width(), 7);
    assert_eq!(map.height(), 3);
    assert_eq!(map.player_start(), cell(1, 1));
    assert_eq!(map.tile(6, 1), Some(Tile::Connection));
    assert_eq!(map.destination(cell(6, 1)), Some((0, cell(1, 1))));
    assert_eq!(map.items(), &vec![(cell(2, 1), ItemType::Armure)]);
    assert_eq!(map.enemies(), &vec![(cell(4, 1), EnemyType::SmallGoblin)]);
    let same = GameMap::new(
        parse_layout(&corridor_rows()),
        cell(1, 1),
        vec![(cell(6, 1), (0, cell(1, 1)))],
        vec![],
        vec![],
    );
    assert!(same.is_some());
}

#[test]
fn malformed_parts_make_no_map() {
    let exit = vec![(cell(6, 1), (0, cell(1, 1)))];
    assert!(GameMap::from_layout(&vec![], cell(0, 0), vec![], vec![], vec![]).is_none());
    assert!(GameMap::from_layout(&vec![""], cell(0, 0), vec![], vec![], vec![]).is_none());
    assert!(GameMap::from_layout(&vec!["PP", "P"], cell(0, 0), vec![], vec![], vec![]).is_none());
    assert!(GameMap::from_layout(&vec!["P", "PP"], cell(0, 0), vec![], vec![], vec![]).is_none());
    assert!(GameMap::from_layout(&corridor_rows(), cell(0, 0), exit.clone(), vec![], vec![]).is_none());
    assert!(GameMap::from_layout(&corridor_rows(), cell(7, 1), exit.clone(), vec![], vec![]).is_none());
    assert!(GameMap::from_layout(&corridor_rows(), cell(1, 3), exit.clone(), vec![], vec![]).is_none());
    assert!(GameMap::from_layout(&corridor_rows(), cell(1, 1), vec![], vec![], vec![]).is_none());
    assert!(GameMap::from_layout(
        &corridor_rows(),
        cell(1, 1),
        vec![(cell(6, 1), (0, cell(1, 1))), (cell(5, 1), (0, cell(1, 1)))],
        vec![],
        vec![]
    )
    .is_none());
    assert!(GameMap::from_layout(
        &corridor_rows(),
        cell(1, 1),
        vec![(cell(6, 1), (0, cell(1, 1))), (cell(9, 1), (0, cell(1, 1)))],
        vec![],
        vec![]
    )
    .is_none());
    assert!(GameMap::from_layout(
        &corridor_rows(),
        cell(1, 1),
        vec![(cell(6, 1), (0, cell(1, 1))), (cell(6, 1), (0, cell(2, 1)))],
        vec![],
        vec![]
    )
    .is_none());
    assert!(GameMap::from_layout(
        &corridor_rows(),
        cell(1, 1),
        exit.clone(),
        vec![(cell(2, 1), ItemType::Armure), (cell(2, 1), ItemType::Katana)],
        vec![]
    )
    .is_none());
    assert!(GameMap::from_layout(
        &corridor_rows(),
        cell(1, 1),
        exit.clone(),
        vec![],
        vec![(cell(3, 1), EnemyType::Wolf), (cell(4, 1), EnemyType::Wolf), (cell(3, 1), EnemyType::Wolf)]
    )
    .is_none());
    assert!(GameMap::from_layout(
        &corridor_rows(),
        cell(1, 1),
        exit,
        vec![(cell(3, 1), ItemType::Armure)],
        vec![(cell(3, 1), EnemyType::Wolf)]
    )
    .is_some());
}

#[test]
fn a_world_needs_a_map_and_connections_that_arrive() {
    assert!(GameData::from_maps(vec![]).is_none());
    let world = GameData::from_maps(vec![corridor().unwrap()]).unwrap();
    assert_eq!(world.map_count(), 1);
    assert_eq!(world.current_map_index(), 0);
    assert_eq!(world.get_current_map().width(), 7);
    let leads_nowhere = GameMap::from_layout(
        &corridor_rows(),
        cell(1, 1),
        vec![(cell(6, 1), (1, cell(1, 1)))],
        vec![],
        vec![],
    )
    .unwrap();
    assert!(GameData::from_maps(vec![leads_nowhere]).is_none());
    let leads_into_a_wall = GameMap::from_layout(
        &corridor_rows(),
        cell(1, 1),
        vec![(cell(6, 1), (0, cell(0, 0)))],
        vec![],
        vec![],
    )
    .unwrap();
    assert!(GameData::from_maps(vec![leads_into_a_wall]).is_none());
    let leads_off_the_grid = GameMap::from_layout(
        &corridor_rows(),
        cell(1, 1),
        vec![(cell(6, 1), (0, cell(1, 7)))],
        vec![],
        vec![],
    )
    .unwrap();
    assert!(GameData::from_maps(vec![leads_off_the_grid]).is_none());
    let second = GameMap::from_layout(&vec!["PP"], cell(0, 0), vec![], vec![], vec![]).unwrap();
    let first = GameMap::from_layout(
        &corridor_rows(),
        cell(1, 1),
        vec![(cell(6, 1), (1, cell(1, 0)))],
        vec![],
        vec![],
    )
    .unwrap();
    let world = GameData::from_maps(vec![first, second]).unwrap();
    assert_eq!(world.map_count(), 2);
    assert_eq!(world.get_map(1).unwrap().width(), 2);
}

#[test]
fn a_world_holds_no_more_than_a_million_items_or_enemies() {
    let crowded = |with_items: bool, count: usize| {
        let placements = |kind_is_item: bool| -> usize {
            if kind_is_item == with_items {
                count
            } else {
                0
            }
        };
        let items = (0..placements(true)).map(|x| (cell(x, 0), ItemType::Katana)).collect();
        let enemies = (0..placements(false)).map(|x| (cell(x, 0), EnemyType::Wolf)).collect();
        GameMap::from_layout(&vec!["P"], cell(0, 0), vec![], items, enemies).unwrap()
    };
    for with_items in [true, false] {
        let full: Vec<GameMap> = (0..10_000).map(|_| crowded(with_items, 100)).collect();
        assert!(GameData::from_maps(full).is_some());
        let mut over: Vec<GameMap> = (0..10_000).map(|_| crowded(with_items, 100)).collect();
        over.push(crowded(with_items, 1));
        assert!(GameData::from_maps(over).is_none());
    }
}
