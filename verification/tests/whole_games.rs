use elden_world::combat::{AttackRolls, CombatPhase};
use elden_world::enemy::EnemyType;
use elden_world::game::{Direction, Game, GameState};
use elden_world::item::ItemType;
use elden_world::map::{GameData, GameMap};
use elden_world::player::{PlayerClass, RewardChoice};
use elden_world::stats::{Position, Stats};

fn here(x: usize, y: usize) -> Position {
    Position { x, y }
}

fn reference_game(class: PlayerClass) -> Game {
    let mut game = Game::new(GameData::new());
    game.apply_class_selection(class);
    game
}

fn walk(game: &mut Game, direction: Direction, steps: usize) {
    for _ in 0..steps {
        game.apply_move(direction);
    }
}

#[test]
fn warrior_against_small_goblin_with_forced_rolls() {
    let mut game = reference_game(PlayerClass::Warrior);
    assert_eq!(
        game.player_snapshot().unwrap().stats,
        Stats { hp: 120, attack: 10, speed: 5, critical_chance: 10 }
    );
    walk(&mut game, Direction::East, 3);
    assert_eq!(game.current_state(), GameState::Combat);
    let fight = game.combat_snapshot().unwrap();
    assert_eq!(fight.enemy.enemy_type, EnemyType::SmallGoblin);
    assert_eq!(fight.enemy.stats, Stats { hp: 30, attack: 5, speed: 8, critical_chance: 5 });
    assert_eq!(fight.enemy_hp, 30);
    let outcome = game.apply_attack_with(AttackRolls {
        enemy_dodge: 50,
        player_crit: 3,
        player_dodge: 5,
        enemy_crit: 50,
    });
    assert_eq!(outcome.state, GameState::Combat);
    assert_eq!(outcome.log, vec!["CRIT 20 dmg", "Esquive joueur"]);
    let fight = game.combat_snapshot().unwrap();
    assert_eq!(fight.enemy_hp, 10);
    assert_eq!(fight.player_hp, 120);
    assert_eq!(fight.phase, CombatPhase::PlayerTurn);
    let missed = game.apply_attack_with(AttackRolls {
        enemy_dodge: 8,
        player_crit: 3,
        player_dodge: 6,
        enemy_crit: 6,
    });
    assert_eq!(missed.log, vec!["Esquive ennemi", "Ennemi 5 dmg"]);
    let fight = game.combat_snapshot().unwrap();
    assert_eq!(fight.enemy_hp, 10);
    assert_eq!(fight.player_hp, 115);
}

#[test]
fn enemy_at_exactly_zero_awaits_the_reward() {
    let mut game = reference_game(PlayerClass::Warrior);
    walk(&mut game, Direction::East, 3);
    let hit = AttackRolls { enemy_dodge: 9, player_crit: 11, player_dodge: 5, enemy_crit: 100 };
    game.apply_attack_with(hit);
    game.apply_attack_with(hit);
    assert_eq!(game.combat_snapshot().unwrap().enemy_hp, 10);
    let outcome = game.apply_attack_with(hit);
    assert_eq!(outcome.state, GameState::Combat);
    assert_eq!(outcome.log, vec!["Atk 10 dmg", "VICTOIRE !"]);
    let fight = game.combat_snapshot().unwrap();
    assert_eq!(fight.enemy_hp, 0);
    assert_eq!(fight.phase, CombatPhase::AwaitingRewardChoice);
    assert_ne!(fight.phase, CombatPhase::PlayerTurn);
    assert_eq!(fight.player_hp, 120);
    assert!(!game.defeated_enemies().enemies.contains(&(0, here(4, 1))));
    let reward = game.apply_reward_choice(RewardChoice::Attack);
    assert_eq!(reward.state, GameState::Roaming);
    assert_eq!(reward.log, vec!["ATK +2 !", "Petit Gobelin vaincu !"]);
    assert_eq!(
        game.player_snapshot().unwrap().stats,
        Stats { hp: 120, attack: 12, speed: 5, critical_chance: 10 }
    );
    assert!(game.defeated_enemies().enemies.contains(&(0, here(4, 1))));
    assert_eq!(game.defeated_enemies().enemies.len(), 1);
    assert_eq!(game.combat_snapshot(), None);
    assert_eq!(
        game.current_map_snapshot().enemies,
        &vec![
            (here(8, 3), EnemyType::SmallGoblin),
            (here(5, 5), EnemyType::MediumGoblin),
            (here(10, 7), EnemyType::SmallGoblin),
        ]
    );
}

#[test]
fn beaten_player_restarts_with_nothing() {
    let first = GameMap::from_layout(
        &vec!["PPC"],
        here(0, 0),
        vec![(here(2, 0), (1, here(0, 0)))],
        vec![(here(1, 0), ItemType::Armure)],
        vec![],
    )
    .unwrap();
    let second = GameMap::from_layout(
        &vec!["PPPP"],
        here(3, 0),
        vec![],
        vec![],
        vec![(here(1, 0), EnemyType::SmallGoblin), (here(2, 0), EnemyType::Wolf)],
    )
    .unwrap();
    let mut game = Game::new(GameData::from_maps(vec![first, second]).unwrap());
    game.apply_class_selection(PlayerClass::Mage);
    walk(&mut game, Direction::East, 2);
    game.map_transition();
    assert_eq!(game.data().current_map_index(), 1);
    game.apply_move(Direction::East);
    let sure_hit = AttackRolls { enemy_dodge: 100, player_crit: 1, player_dodge: 1, enemy_crit: 100 };
    game.apply_attack_with(sure_hit);
    assert_eq!(game.combat_snapshot().unwrap().phase, CombatPhase::AwaitingRewardChoice);
    game.apply_reward_choice(RewardChoice::Hp);
    assert_eq!(game.collected_items().items.len(), 1);
    assert_eq!(game.defeated_enemies().enemies.len(), 1);
    assert_eq!(game.player_snapshot().unwrap().stats.hp, 150);
    assert_eq!(game.apply_move(Direction::East).state, GameState::Combat);
    let wolf_bites = AttackRolls { enemy_dodge: 12, player_crit: 1, player_dodge: 4, enemy_crit: 20 };
    for expected in [120, 90, 60, 30] {
        game.apply_attack_with(wolf_bites);
        assert_eq!(game.combat_snapshot().unwrap().player_hp, expected);
        assert_eq!(game.combat_snapshot().unwrap().phase, CombatPhase::PlayerTurn);
    }
    let last = game.apply_attack_with(wolf_bites);
    assert_eq!(last.state, GameState::Combat);
    assert_eq!(last.log, vec!["Esquive ennemi", "Ennemi CRIT 30 dmg", "DEFAITE"]);
    assert_eq!(game.combat_snapshot().unwrap().player_hp, 0);
    assert_eq!(game.combat_snapshot().unwrap().enemy_hp, 100);
    assert_eq!(game.combat_snapshot().unwrap().phase, CombatPhase::AwaitingRestartChoice);
    let restart = game.apply_restart();
    assert_eq!(restart.state, GameState::ClassSelection);
    assert_eq!(game.current_state(), GameState::ClassSelection);
    assert!(game.collected_items().items.is_empty());
    assert!(game.defeated_enemies().enemies.is_empty());
    assert_eq!(game.collected_items().items.len(), 0);
    assert_eq!(game.defeated_enemies().enemies.len(), 0);
    assert_eq!(game.data().current_map_index(), 0);
    assert_eq!(game.player_snapshot(), None);
    assert_eq!(game.combat_snapshot(), None);
    assert_eq!(game.current_map_snapshot().items, &vec![(here(1, 0), ItemType::Armure)]);
    game.apply_class_selection(PlayerClass::Warrior);
    assert_eq!(
        game.player_snapshot().unwrap().stats,
        Stats { hp: 120, attack: 10, speed: 5, critical_chance: 10 }
    );
    assert_eq!(game.player_snapshot().unwrap().position, here(0, 0));
    let again = game.apply_move(Direction::East);
    assert_eq!(again.log, vec!["Objet ramassé : Armure", "HP +50"]);
    walk(&mut game, Direction::East, 1);
    game.map_transition();
    assert_eq!(game.current_map_snapshot().enemies.len(), 2);
}

#[test]
fn crossing_the_connection_of_the_first_map_leads_to_the_second() {
    let mut game = reference_game(PlayerClass::Assassin);
    walk(&mut game, Direction::South, 7);
    assert_eq!(game.player_snapshot().unwrap().position, here(1, 8));
    walk(&mut game, Direction::East, 11);
    assert_eq!(game.player_snapshot().unwrap().position, here(12, 8));
    walk(&mut game, Direction::North, 3);
    assert_eq!(game.player_snapshot().unwrap().position, here(12, 5));
    assert_eq!(game.current_state(), GameState::Roaming);
    assert_eq!(game.data().current_map_index(), 0);
    let crossing = game.apply_move(Direction::East);
    assert_eq!(crossing.state, GameState::MapTransition);
    assert!(crossing.log.is_empty());
    assert_eq!(game.current_state(), GameState::MapTransition);
    assert_eq!(game.data().current_map_index(), 1);
    assert_eq!(game.player_snapshot().unwrap().position, here(1, 5));
    assert_eq!(
        game.player_snapshot().unwrap().stats,
        Stats { hp: 100, attack: 8, speed: 12, critical_chance: 15 }
    );
    assert_eq!(game.map_transition(), GameState::Roaming);
    assert_eq!(game.current_state(), GameState::Roaming);
    assert_eq!(game.data().current_map_index(), 1);
    assert_eq!(game.player_snapshot().unwrap().position, here(1, 5));
    assert_eq!(game.current_map_snapshot().enemies.len(), 5);
    assert_eq!(
        game.current_map_snapshot().items,
        &vec![(here(10, 2), ItemType::Gants), (here(11, 7), ItemType::Pendentif)]
    );
    let back = game.apply_move(Direction::West);
    assert_eq!(back.state, GameState::MapTransition);
    assert_eq!(game.data().current_map_index(), 0);
    assert_eq!(game.player_snapshot().unwrap().position, here(12, 5));
    assert_eq!(game.map_transition(), GameState::Roaming);
    assert_eq!(game.current_map_snapshot().enemies.len(), 4);
}

#[test]
fn the_katana_of_the_first_map_gives_ten_speed() {
    let mut game = reference_game(PlayerClass::Warrior);
    walk(&mut game, Direction::South, 2);
    let pickup = game.apply_move(Direction::East);
    assert_eq!(game.player_snapshot().unwrap().position, here(2, 3));
    assert_eq!(pickup.log, vec!["Objet ramassé : Katana", "SPD +10"]);
    assert_eq!(
        game.player_snapshot().unwrap().stats,
        Stats { hp: 120, attack: 10, speed: 15, critical_chance: 10 }
    );
    assert!(game.collected_items().items.contains(&(0, here(2, 3))));
    assert_eq!(game.current_map_snapshot().items, &vec![(here(7, 7), ItemType::Armure)]);
}
