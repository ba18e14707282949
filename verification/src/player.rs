//! The player: a class that selects the starting statistics, the statistics
//! themselves and a position on the current map.

use crate::stats::{Position, Stats};
use vstd::prelude::*;

verus! {

/// The playable classes. A class selects the starting statistics and the
/// displayed name, and nothing else.
#[derive(Clone, Copy, Debug, PartialEq, Eq, Structural)]
pub enum PlayerClass {
    /// Many hit points.
    Warrior,
    /// A strong attack, few hit points.
    Mage,
    /// Quick, hard to hit.
    Assassin,
    /// The highest critical chance.
    Executioner,
}

/// The player's character.
#[derive(Clone, Copy, Debug, PartialEq, Eq, Structural)]
pub struct Player {
    pub class: PlayerClass,
    pub stats: Stats,
    pub position: Position,
}

/// What the player may raise after a victory.
#[derive(Clone, Copy, Debug, PartialEq, Eq, Structural)]
pub enum RewardChoice {
    /// Ten more hit points.
    Hp,
    /// Two more points of attack.
    Attack,
    /// One more point of speed.
    Speed,
    /// Two more points of critical chance.
    CriticalChance,
}

/// The largest amount by which one reward raises any statistic.
pub const REWARD_GAIN_MAX: i32 = 10;

/// The largest starting value of any statistic of any class.
pub const CLASS_STAT_MAX: i32 = 120;

/// The starting statistics of each class.
pub open spec fn class_stats(class: PlayerClass) -> Stats {
    match class {
        PlayerClass::Warrior => Stats { hp: 120, attack: 10, speed: 5, critical_chance: 10 },
        PlayerClass::Mage => Stats { hp: 90, attack: 15, speed: 3, critical_chance: 15 },
        PlayerClass::Assassin => Stats { hp: 100, attack: 8, speed: 12, critical_chance: 15 },
        PlayerClass::Executioner => Stats { hp: 120, attack: 7, speed: 2, critical_chance: 25 },
    }
}

/// The bonus of each reward.
///
/// Of the two reward tables that have been in use, this is the one of the combat
/// screen: the speed reward is one point.
pub open spec fn reward_stats(choice: RewardChoice) -> Stats {
    match choice {
        RewardChoice::Hp => Stats { hp: 10, attack: 0, speed: 0, critical_chance: 0 },
        RewardChoice::Attack => Stats { hp: 0, attack: 2, speed: 0, critical_chance: 0 },
        RewardChoice::Speed => Stats { hp: 0, attack: 0, speed: 1, critical_chance: 0 },
        RewardChoice::CriticalChance => Stats { hp: 0, attack: 0, speed: 0, critical_chance: 2 },
    }
}

/// The display name of each class.
pub open spec fn class_name(class: PlayerClass) -> Seq<char> {
    match class {
        PlayerClass::Warrior => "Guerrier"@,
        PlayerClass::Mage => "Magicien"@,
        PlayerClass::Assassin => "Assassin"@,
        PlayerClass::Executioner => "Bourreau"@,
    }
}

/// The name under which a class is shown.
pub fn get_class_name(class: PlayerClass) -> (name: &'static str)
    ensures
        name@ == class_name(class),
{
    match class {
        PlayerClass::Warrior => "Guerrier",
        PlayerClass::Mage => "Magicien",
        PlayerClass::Assassin => "Assassin",
        PlayerClass::Executioner => "Bourreau",
    }
}

/// The class that a key selects: `1` the warrior, `2` the mage, `3` the assassin
/// and `4` the executioner.
pub open spec fn class_of_key(key: char) -> Option<PlayerClass> {
    if key == '1' {
        Some(PlayerClass::Warrior)
    } else if key == '2' {
        Some(PlayerClass::Mage)
    } else if key == '3' {
        Some(PlayerClass::Assassin)
    } else if key == '4' {
        Some(PlayerClass::Executioner)
    } else {
        None
    }
}

/// The reward that a key selects, in either case of the letter: `h` the hit
/// points, `a` the attack, `s` the speed and `c` the critical chance.
pub open spec fn reward_of_key(key: char) -> Option<RewardChoice> {
    if key == 'h' || key == 'H' {
        Some(RewardChoice::Hp)
    } else if key == 'a' || key == 'A' {
        Some(RewardChoice::Attack)
    } else if key == 's' || key == 'S' {
        Some(RewardChoice::Speed)
    } else if key == 'c' || key == 'C' {
        Some(RewardChoice::CriticalChance)
    } else {
        None
    }
}

impl PlayerClass {
    /// The class that the player selects with the given key, if the key selects
    /// one.
    pub fn from_key(key: char) -> (class: Option<PlayerClass>)
        ensures
            class == class_of_key(key),
    {
        if key == '1' {
            Some(PlayerClass::Warrior)
        } else if key == '2' {
            Some(PlayerClass::Mage)
        } else if key == '3' {
            Some(PlayerClass::Assassin)
        } else if key == '4' {
            Some(PlayerClass::Executioner)
        } else {
            None
        }
    }
}

impl RewardChoice {
    /// The reward that the player selects with the given key, if the key selects
    /// one.
    pub fn from_key(key: char) -> (choice: Option<RewardChoice>)
        ensures
            choice == reward_of_key(key),
    {
        if key == 'h' || key == 'H' {
            Some(RewardChoice::Hp)
        } else if key == 'a' || key == 'A' {
            Some(RewardChoice::Attack)
        } else if key == 's' || key == 'S' {
            Some(RewardChoice::Speed)
        } else if key == 'c' || key == 'C' {
            Some(RewardChoice::CriticalChance)
        } else {
            None
        }
    }
}

/// The statistics that a character of the given class starts with.
pub fn get_stats_for_class(class: PlayerClass) -> (stats: Stats)
    ensures
        stats == class_stats(class),
{
    match class {
        PlayerClass::Warrior => Stats { hp: 120, attack: 10, speed: 5, critical_chance: 10 },
        PlayerClass::Mage => Stats { hp: 90, attack: 15, speed: 3, critical_chance: 15 },
        PlayerClass::Assassin => Stats { hp: 100, attack: 8, speed: 12, critical_chance: 15 },
        PlayerClass::Executioner => Stats { hp: 120, attack: 7, speed: 2, critical_chance: 25 },
    }
}

/// The bonus that the given reward adds, once and for good, to the player's
/// statistics.
pub fn get_stats_for_reward(choice: RewardChoice) -> (stats: Stats)
    ensures
        stats == reward_stats(choice),
{
    match choice {
        RewardChoice::Hp => Stats { hp: 10, attack: 0, speed: 0, critical_chance: 0 },
        RewardChoice::Attack => Stats { hp: 0, attack: 2, speed: 0, critical_chance: 0 },
        RewardChoice::Speed => Stats { hp: 0, attack: 0, speed: 1, critical_chance: 0 },
        RewardChoice::CriticalChance => Stats { hp: 0, attack: 0, speed: 0, critical_chance: 2 },
    }
}

impl Player {
    /// A new character of the given class, with that class's starting statistics,
    /// standing at `start_position`.
    pub fn new(class: PlayerClass, start_position: Position) -> (player: Player)
        ensures
            player == (Player { class, stats: class_stats(class), position: start_position }),
    {
        let stats = get_stats_for_class(class);
        Player { class, stats, position: start_position }
    }

    /// Adds the bonus of a collected item, or of a reward, to the player's
    /// statistics, field by field and for good.
    pub fn apply_item_stats(&mut self, item_stats: &Stats)
        requires
            old(self).stats.can_gain(*item_stats),
        ensures
            final(self).stats == old(self).stats.gained(*item_stats),
            final(self).class == old(self).class,
            final(self).position == old(self).position,
    {
        self.stats = self.stats.gain(*item_stats);
    }
}

/// Every class starts with between 1 and `CLASS_STAT_MAX` in each statistic.
pub proof fn lemma_class_stats_bounded(class: PlayerClass)
    ensures
        class_stats(class).within(1, CLASS_STAT_MAX as int),
{
}

/// No reward lowers a statistic, and none raises one by more than
/// `REWARD_GAIN_MAX`.
pub proof fn lemma_reward_stats_bounded(choice: RewardChoice)
    ensures
        reward_stats(choice).within(0, REWARD_GAIN_MAX as int),
{
}

} // verus!
