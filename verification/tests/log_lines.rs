use elden_world::enemy::EnemyType;
use elden_world::item::ItemType;
use elden_world::log::{
    combat_panel, decimal_string, player_panel, recent_lines, render_events, round_message,
    GameLog, LogEvent,
};
use elden_world::player::{Player, PlayerClass, RewardChoice};
use elden_world::stats::{Position, Stats};

#[test]
fn integers_are_written_in_decimal() {
    assert_eq!(decimal_string(0), "0");
    assert_eq!(decimal_string(7), "7");
    assert_eq!(decimal_string(10), "10");
    assert_eq!(decimal_string(99), "99");
    assert_eq!(decimal_string(100), "100");
    assert_eq!(decimal_string(1234567890), "1234567890");
    assert_eq!(decimal_string(-1), "-1");
    assert_eq!(decimal_string(-15), "-15");
    assert_eq!(decimal_string(i32::MAX), "2147483647");
    assert_eq!(decimal_string(i32::MIN), "-2147483648");
    for n in -2000..2000 {
        assert_eq!(decimal_string(n), n.to_string());
    }
}

#[test]
fn every_event_has_its_line() {
    assert_eq!(LogEvent::ItemFound(ItemType::Katana).message(), "Objet ramassé : Katana");
    assert_eq!(LogEvent::ItemFound(ItemType::Pendentif).message(), "Objet ramassé : Pendentif");
    assert_eq!(LogEvent::Encounter(EnemyType::SmallGoblin).message(), "Combat contre Petit Gobelin !");
    assert_eq!(LogEvent::Encounter(EnemyType::Wolf).message(), "Combat contre Loup !");
    assert_eq!(LogEvent::EnemyDodged.message(), "Esquive ennemi");
    assert_eq!(LogEvent::PlayerHit(10).message(), "Atk 10 dmg");
    assert_eq!(LogEvent::PlayerCritical(20).message(), "CRIT 20 dmg");
    assert_eq!(LogEvent::Victory.message(), "VICTOIRE !");
    assert_eq!(LogEvent::PlayerDodged.message(), "Esquive joueur");
    assert_eq!(LogEvent::EnemyHit(5).message(), "Ennemi 5 dmg");
    assert_eq!(LogEvent::EnemyCritical(30).message(), "Ennemi CRIT 30 dmg");
    assert_eq!(LogEvent::Defeat.message(), "DEFAITE");
    assert_eq!(LogEvent::RewardGained(RewardChoice::Hp).message(), "HP +10 !");
    assert_eq!(LogEvent::RewardGained(RewardChoice::Attack).message(), "ATK +2 !");
    assert_eq!(LogEvent::RewardGained(RewardChoice::Speed).message(), "SPD +1 !");
    assert_eq!(LogEvent::RewardGained(RewardChoice::CriticalChance).message(), "CRIT +2% !");
    assert_eq!(LogEvent::EnemyDefeated(EnemyType::MediumGoblin).message(), "Gobelin Moyen vaincu !");
    assert_eq!(LogEvent::PlayerHit(-3).message(), "Atk -3 dmg");
}

#[test]
fn gains_are_listed_for_the_positive_fields() {
    let gains = |hp, attack, speed, critical_chance| {
        LogEvent::StatsGained(Stats { hp, attack, speed, critical_chance }).message()
    };
    assert_eq!(gains(50, 0, 0, 0), "HP +50");
    assert_eq!(gains(0, 20, 0, 0), "ATK +20");
    assert_eq!(gains(0, 0, 10, 0), "SPD +10");
    assert_eq!(gains(0, 0, 0, 15), "CRIT +15%");
    assert_eq!(gains(50, 20, 10, 15), "HP +50, ATK +20, SPD +10, CRIT +15%");
    assert_eq!(gains(0, 2, 0, 3), "ATK +2, CRIT +3%");
    assert_eq!(gains(1, 0, 1, 0), "HP +1, SPD +1");
    assert_eq!(gains(0, 0, 0, 0), "");
    assert_eq!(gains(-5, 3, -1, 0), "ATK +3");
}

#[test]
fn events_are_rendered_in_order() {
    let lines = render_events(&vec![
        LogEvent::PlayerCritical(20),
        LogEvent::EnemyDodged,
        LogEvent::Victory,
    ]);
    assert_eq!(lines, vec!["CRIT 20 dmg", "Esquive ennemi", "VICTOIRE !"]);
    assert!(render_events(&vec![]).is_empty());
}

#[test]
fn the_log_keeps_the_ten_latest_lines() {
    let mut log = GameLog::new();
    assert!(log.messages.is_empty());
    for n in 1..=10 {
        log.add_message(format!("line {}", n));
        assert_eq!(log.messages.len(), n);
    }
    assert_eq!(log.messages[0], "line 1");
    assert_eq!(log.messages[9], "line 10");
    log.add_message("line 11".to_string());
    assert_eq!(log.messages.len(), 10);
    assert_eq!(log.messages[0], "line 2");
    assert_eq!(log.messages[9], "line 11");
    for n in 12..=40 {
        log.add_message(format!("line {}", n));
    }
    assert_eq!(log.messages.len(), 10);
    assert_eq!(log.messages[0], "line 31");
    assert_eq!(log.messages[9], "line 40");
}

#[test]
fn a_log_over_its_capacity_loses_one_line_for_each_added() {
    let mut log = GameLog { messages: (0..12).map(|n| n.to_string()).collect() };
    log.add_message("new".to_string());
    assert_eq!(log.messages.len(), 12);
    assert_eq!(log.messages[0], "1");
    assert_eq!(log.messages[11], "new");
}

#[test]
fn the_log_is_shown_as_a_welcome_or_its_lines() {
    let mut log = GameLog::default();
    assert_eq!(log.text(), "Bienvenue dans le jeu !");
    log.add_message("HP +10 !".to_string());
    assert_eq!(log.text(), "HP +10 !");
    log.add_message("Loup vaincu !".to_string());
    log.add_message("".to_string());
    log.add_message("fin".to_string());
    assert_eq!(log.text(), "HP +10 !\nLoup vaincu !\n\nfin");
}

#[test]
fn panels_show_the_statistics() {
    let player = Player::new(PlayerClass::Mage, Position { x: 1, y: 1 });
    assert_eq!(
        player_panel(&player),
        "Classe: Magicien\nHP: 90\nAttaque: 15\nVitesse: 3\nCritique: 15%"
    );
    let goblin = Stats { hp: 30, attack: 5, speed: 8, critical_chance: 5 };
    assert_eq!(
        combat_panel(10, &goblin),
        "Points de vie: 10 / 30\nAttaque: 5\nVitesse: 8\nCritique: 5%"
    );
    assert_eq!(
        combat_panel(-15, &goblin),
        "Points de vie: 0 / 30\nAttaque: 5\nVitesse: 8\nCritique: 5%"
    );
    assert_eq!(
        combat_panel(0, &goblin),
        "Points de vie: 0 / 30\nAttaque: 5\nVitesse: 8\nCritique: 5%"
    );
}

#[test]
fn the_latest_lines_are_the_last_ones() {
    let lines: Vec<String> = (1..=7).map(|n| format!("line {}", n)).collect();
    assert_eq!(recent_lines(&lines, 5), vec!["line 3", "line 4", "line 5", "line 6", "line 7"]);
    assert_eq!(recent_lines(&lines, 1), vec!["line 7"]);
    assert_eq!(recent_lines(&lines, 7), lines);
    assert_eq!(recent_lines(&lines, 8), lines);
    assert_eq!(recent_lines(&lines, usize::MAX), lines);
    assert!(recent_lines(&lines, 0).is_empty());
    assert!(recent_lines(&Vec::new(), 5).is_empty());
}

#[test]
fn the_combat_screen_tells_both_blows_and_the_hit_points_left() {
    assert_eq!(
        round_message(&vec![LogEvent::PlayerCritical(20), LogEvent::EnemyHit(5)], 10, 115),
        "--- VOTRE TOUR ---\n\n⚡ COUP CRITIQUE !\nDegats: 20\n\nHP ennemi: 10\n\n--- TOUR ENNEMI ---\n\nL'ennemi attaque !\nDegats: 5\n\nVos HP: 115\n\n[ESPACE] pour continuer"
    );
    assert_eq!(
        round_message(&vec![LogEvent::EnemyDodged, LogEvent::PlayerDodged], 30, 120),
        "--- VOTRE TOUR ---\n\nL'ennemi esquive votre attaque !\n\nHP ennemi: 30\n\n--- TOUR ENNEMI ---\n\nVous esquivez l'attaque !\n\nVos HP: 120\n\n[ESPACE] pour continuer"
    );
    assert_eq!(
        round_message(&vec![LogEvent::PlayerHit(10), LogEvent::EnemyCritical(30)], 20, 60),
        "--- VOTRE TOUR ---\n\nVous attaquez !\nDegats: 10\n\nHP ennemi: 20\n\n--- TOUR ENNEMI ---\n\n⚡ CRITIQUE ENNEMI !\nDegats: 30\n\nVos HP: 60\n\n[ESPACE] pour continuer"
    );
}

#[test]
fn the_combat_screen_has_a_message_for_victory_and_for_defeat() {
    let victory = "🎉 VICTOIRE ! 🎉\n\nChoisissez une amelioration:\nH = +10 HP | A = +2 ATK\nS = +1 SPD | C = +2% CRIT";
    let defeat = "💀 DEFAITE... 💀\n\nAppuyez sur R pour recommencer";
    assert_eq!(round_message(&vec![LogEvent::PlayerHit(10), LogEvent::Victory], 0, 120), victory);
    assert_eq!(round_message(&vec![LogEvent::PlayerCritical(20), LogEvent::Victory], -15, 7), victory);
    assert_eq!(
        round_message(
            &vec![LogEvent::EnemyDodged, LogEvent::EnemyCritical(10), LogEvent::Defeat],
            30,
            0
        ),
        defeat
    );
    assert_eq!(round_message(&vec![], 30, 120), "");
    assert_eq!(
        round_message(&vec![LogEvent::PlayerHit(3)], 30, 120),
        "--- VOTRE TOUR ---\n\nVous attaquez !\nDegats: 3"
    );
}
