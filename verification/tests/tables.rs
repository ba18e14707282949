use elden_world::enemy::{get_stats_for_enemy, Enemy, EnemyType};
use elden_world::game::{Direction, GameState};
use elden_world::item::{get_stats_for_item, Item, ItemType};
use elden_world::player::{
    get_class_name, get_stats_for_class, get_stats_for_reward, Player, PlayerClass, RewardChoice,
};
use elden_world::stats::{Position, Stats};

fn stats_of(hp: i32, attack: i32, speed: i32, critical_chance: i32) -> Stats {
    Stats { hp, attack, speed, critical_chance }
}

#[test]
fn class_table_holds_the_balance_data() {
    assert_eq!(get_stats_for_class(PlayerClass::Warrior), stats_of(120, 10, 5, 10));
    assert_eq!(get_stats_for_class(PlayerClass::Mage), stats_of(90, 15, 3, 15));
    assert_eq!(get_stats_for_class(PlayerClass::Assassin), stats_of(100, 8, 12, 15));
    assert_eq!(get_stats_for_class(PlayerClass::Executioner), stats_of(120, 7, 2, 25));
}

#[test]
fn enemy_table_holds_the_balance_data() {
    assert_eq!(get_stats_for_enemy(EnemyType::SmallGoblin), stats_of(30, 5, 8, 5));
    assert_eq!(get_stats_for_enemy(EnemyType::MediumGoblin), stats_of(50, 8, 5, 10));
    assert_eq!(get_stats_for_enemy(EnemyType::LargeGoblin), stats_of(80, 12, 3, 8));
    assert_eq!(get_stats_for_enemy(EnemyType::Wolf), stats_of(100, 15, 12, 20));
}

#[test]
fn item_table_holds_the_later_balance_data() {
    assert_eq!(get_stats_for_item(ItemType::Armure), stats_of(50, 0, 0, 0));
    assert_eq!(get_stats_for_item(ItemType::Katana), stats_of(0, 0, 10, 0));
    assert_eq!(get_stats_for_item(ItemType::Gants), stats_of(0, 20, 0, 0));
    assert_eq!(get_stats_for_item(ItemType::Pendentif), stats_of(0, 0, 0, 15));
}

#[test]
fn reward_table_holds_the_combat_screen_values() {
    assert_eq!(get_stats_for_reward(RewardChoice::Hp), stats_of(10, 0, 0, 0));
    assert_eq!(get_stats_for_reward(RewardChoice::Attack), stats_of(0, 2, 0, 0));
    assert_eq!(get_stats_for_reward(RewardChoice::Speed), stats_of(0, 0, 1, 0));
    assert_eq!(get_stats_for_reward(RewardChoice::CriticalChance), stats_of(0, 0, 0, 2));
}

#[test]
fn names_are_the_displayed_ones() {
    assert_eq!(EnemyType::SmallGoblin.get_name(), "Petit Gobelin");
    assert_eq!(EnemyType::MediumGoblin.get_name(), "Gobelin Moyen");
    assert_eq!(EnemyType::LargeGoblin.get_name(), "Gros Gobelin");
    assert_eq!(EnemyType::Wolf.get_name(), "Loup");
    assert_eq!(ItemType::Armure.get_name(), "Armure");
    assert_eq!(ItemType::Katana.get_name(), "Katana");
    assert_eq!(ItemType::Gants.get_name(), "Gants");
    assert_eq!(ItemType::Pendentif.get_name(), "Pendentif");
    assert_eq!(get_class_name(PlayerClass::Warrior), "Guerrier");
    assert_eq!(get_class_name(PlayerClass::Mage), "Magicien");
    assert_eq!(get_class_name(PlayerClass::Assassin), "Assassin");
    assert_eq!(get_class_name(PlayerClass::Executioner), "Bourreau");
}

#[test]
fn new_enemy_has_the_stats_of_its_archetype() {
    let wolf = Enemy::new(EnemyType::Wolf);
    assert_eq!(wolf.enemy_type, EnemyType::Wolf);
    assert_eq!(wolf.stats, stats_of(100, 15, 12, 20));
    let goblin = Enemy::new(EnemyType::SmallGoblin);
    assert_eq!(goblin, Enemy { enemy_type: EnemyType::SmallGoblin, stats: stats_of(30, 5, 8, 5) });
}

#[test]
fn new_player_has_the_stats_of_its_class() {
    let start = Position { x: 3, y: 4 };
    let player = Player::new(PlayerClass::Assassin, start);
    assert_eq!(player.class, PlayerClass::Assassin);
    assert_eq!(player.stats, stats_of(100, 8, 12, 15));
    assert_eq!(player.position, start);
}

#[test]
fn item_bonus_is_added_field_by_field() {
    let mut player = Player::new(PlayerClass::Warrior, Position { x: 1, y: 1 });
    player.apply_item_stats(&stats_of(50, 20, 10, 15));
    assert_eq!(player.stats, stats_of(170, 30, 15, 25));
    assert_eq!(player.position, Position { x: 1, y: 1 });
    assert_eq!(player.class, PlayerClass::Warrior);
    player.apply_item_stats(&stats_of(-170, 0, 0, 0));
    assert_eq!(player.stats, stats_of(0, 30, 15, 25));
}

#[test]
fn stats_gain_adds_each_field() {
    let sum = stats_of(1, 2, 3, 4).gain(stats_of(10, 20, 30, 40));
    assert_eq!(sum, stats_of(11, 22, 33, 44));
    let edge = stats_of(i32::MAX - 1, i32::MIN + 1, 0, 0).gain(stats_of(1, -1, 0, 0));
    assert_eq!(edge, stats_of(i32::MAX, i32::MIN, 0, 0));
}

#[test]
fn defaults_are_zero_and_the_first_state() {
    assert_eq!(Stats::default(), stats_of(0, 0, 0, 0));
    assert_eq!(Position::default(), Position { x: 0, y: 0 });
    assert_eq!(GameState::default(), GameState::ClassSelection);
}

#[test]
fn keys_select_classes_rewards_and_directions() {
    assert_eq!(PlayerClass::from_key('1'), Some(PlayerClass::Warrior));
    assert_eq!(PlayerClass::from_key('2'), Some(PlayerClass::Mage));
    assert_eq!(PlayerClass::from_key('3'), Some(PlayerClass::Assassin));
    assert_eq!(PlayerClass::from_key('4'), Some(PlayerClass::Executioner));
    assert_eq!(PlayerClass::from_key('5'), None);
    assert_eq!(PlayerClass::from_key('0'), None);
    assert_eq!(RewardChoice::from_key('h'), Some(RewardChoice::Hp));
    assert_eq!(RewardChoice::from_key('A'), Some(RewardChoice::Attack));
    assert_eq!(RewardChoice::from_key('s'), Some(RewardChoice::Speed));
    assert_eq!(RewardChoice::from_key('C'), Some(RewardChoice::CriticalChance));
    assert_eq!(RewardChoice::from_key('x'), None);
    assert_eq!(Direction::from_key('z'), Some(Direction::North));
    assert_eq!(Direction::from_key('S'), Some(Direction::South));
    assert_eq!(Direction::from_key('q'), Some(Direction::West));
    assert_eq!(Direction::from_key('D'), Some(Direction::East));
    assert_eq!(Direction::from_key('w'), None);
}

#[test]
fn an_item_is_told_by_its_kind() {
    let item = Item { item_type: ItemType::Katana };
    assert_eq!(item.item_type, ItemType::Katana);
    assert_ne!(item, Item { item_type: ItemType::Gants });
}
