use elden_world::enemy::EnemyType;
use elden_world::item::ItemType;
use elden_world::placement::{find_at, has_distinct_cells};
use elden_world::progress::{spawn_live, CollectedItems, DefeatedEnemies, ProgressSet};
use elden_world::stats::Position;

fn at(x: usize, y: usize) -> Position {
    Position { x, y }
}

#[test]
fn a_new_set_is_empty() {
    let set = ProgressSet::new();
    assert!(set.is_empty());
    assert_eq!(set.len(), 0);
    assert!(!set.contains(&(0, at(0, 0))));
    assert!(CollectedItems::new().items.is_empty());
    assert!(DefeatedEnemies::new().enemies.is_empty());
    assert!(CollectedItems::default().items.is_empty());
    assert!(DefeatedEnemies::default().enemies.is_empty());
    assert!(ProgressSet::default().is_empty());
}

#[test]
fn inserting_twice_is_inserting_once() {
    let mut set = ProgressSet::new();
    assert!(set.insert((0, at(2, 3))));
    assert!(!set.insert((0, at(2, 3))));
    assert!(!set.insert((0, at(2, 3))));
    assert_eq!(set.len(), 1);
    assert!(set.contains(&(0, at(2, 3))));
    assert!(!set.contains(&(1, at(2, 3))));
    assert!(!set.contains(&(0, at(3, 2))));
    assert!(set.insert((1, at(2, 3))));
    assert!(set.insert((0, at(3, 2))));
    assert_eq!(set.len(), 3);
    assert_eq!(set.to_vec(), vec![(0, at(2, 3)), (1, at(2, 3)), (0, at(3, 2))]);
    assert!(!set.is_empty());
}

#[test]
fn clearing_empties_the_set() {
    let mut set = ProgressSet::new();
    set.insert((0, at(1, 1)));
    set.insert((4, at(9, 9)));
    set.clear();
    assert!(set.is_empty());
    assert_eq!(set.len(), 0);
    assert!(!set.contains(&(0, at(1, 1))));
    assert!(set.insert((0, at(1, 1))));
}

#[test]
fn live_placements_are_those_not_recorded_for_their_map() {
    let items = vec![
        (at(2, 3), ItemType::Katana),
        (at(7, 7), ItemType::Armure),
        (at(1, 1), ItemType::Gants),
    ];
    let mut collected = ProgressSet::new();
    assert_eq!(spawn_live(&items, 0, &collected), items);
    collected.insert((0, at(7, 7)));
    collected.insert((1, at(2, 3)));
    assert_eq!(
        spawn_live(&items, 0, &collected),
        vec![(at(2, 3), ItemType::Katana), (at(1, 1), ItemType::Gants)]
    );
    assert_eq!(
        spawn_live(&items, 1, &collected),
        vec![(at(7, 7), ItemType::Armure), (at(1, 1), ItemType::Gants)]
    );
    assert_eq!(spawn_live(&items, 2, &collected), items);
    collected.insert((0, at(2, 3)));
    collected.insert((0, at(1, 1)));
    assert!(spawn_live(&items, 0, &collected).is_empty());
    let none: Vec<(Position, EnemyType)> = Vec::new();
    assert!(spawn_live(&none, 0, &collected).is_empty());
}

#[test]
fn the_first_placement_of_a_cell_is_found() {
    let enemies = vec![
        (at(4, 1), EnemyType::SmallGoblin),
        (at(8, 3), EnemyType::Wolf),
        (at(4, 1), EnemyType::LargeGoblin),
    ];
    assert_eq!(find_at(&enemies, at(4, 1)), Some(0));
    assert_eq!(find_at(&enemies, at(8, 3)), Some(1));
    assert_eq!(find_at(&enemies, at(1, 4)), None);
    let none: Vec<(Position, EnemyType)> = Vec::new();
    assert_eq!(find_at(&none, at(4, 1)), None);
}

#[test]
fn distinct_cells_are_told_from_shared_ones() {
    let none: Vec<(Position, ItemType)> = Vec::new();
    assert!(has_distinct_cells(&none));
    assert!(has_distinct_cells(&vec![(at(1, 1), ItemType::Katana)]));
    assert!(has_distinct_cells(&vec![(at(1, 1), ItemType::Katana), (at(1, 2), ItemType::Katana)]));
    assert!(!has_distinct_cells(&vec![(at(1, 1), ItemType::Katana), (at(1, 1), ItemType::Gants)]));
    assert!(!has_distinct_cells(&vec![
        (at(1, 1), ItemType::Katana),
        (at(2, 1), ItemType::Gants),
        (at(3, 1), ItemType::Gants),
        (at(2, 1), ItemType::Armure),
    ]));
}
