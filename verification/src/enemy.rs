//! Enemy archetypes and their base statistics.

use crate::stats::Stats;
use vstd::prelude::*;

verus! {

/// The enemy archetypes, from the weakest to the strongest.
#[derive(Clone, Copy, Debug, PartialEq, Eq, Structural)]
pub enum EnemyType {
    /// The weakest enemy, but a quick one.
    SmallGoblin,
    /// A balanced enemy.
    MediumGoblin,
    /// A sturdy and strong enemy.
    LargeGoblin,
    /// The final enemy.
    Wolf,
}

/// An enemy standing on a map: its archetype and the statistics it fights with.
#[derive(Clone, Copy, Debug, PartialEq, Eq, Structural)]
pub struct Enemy {
    pub enemy_type: EnemyType,
    pub stats: Stats,
}

/// The base statistics of each archetype.
pub open spec fn enemy_stats(enemy_type: EnemyType) -> Stats {
    match enemy_type {
        EnemyType::SmallGoblin => Stats { hp: 30, attack: 5, speed: 8, critical_chance: 5 },
        EnemyType::MediumGoblin => Stats { hp: 50, attack: 8, speed: 5, critical_chance: 10 },
        EnemyType::LargeGoblin => Stats { hp: 80, attack: 12, speed: 3, critical_chance: 8 },
        EnemyType::Wolf => Stats { hp: 100, attack: 15, speed: 12, critical_chance: 20 },
    }
}

/// The display name of each archetype.
pub open spec fn enemy_name(enemy_type: EnemyType) -> Seq<char> {
    match enemy_type {
        EnemyType::SmallGoblin => "Petit Gobelin"@,
        EnemyType::MediumGoblin => "Gobelin Moyen"@,
        EnemyType::LargeGoblin => "Gros Gobelin"@,
        EnemyType::Wolf => "Loup"@,
    }
}

impl EnemyType {
    /// The name under which the enemy is shown and logged.
    pub fn get_name(&self) -> (name: &'static str)
        ensures
            name@ == enemy_name(*self),
    {
        match self {
            EnemyType::SmallGoblin => "Petit Gobelin",
            EnemyType::MediumGoblin => "Gobelin Moyen",
            EnemyType::LargeGoblin => "Gros Gobelin",
            EnemyType::Wolf => "Loup",
        }
    }
}

impl Enemy {
    /// An enemy of the given archetype, with that archetype's base statistics.
    pub fn new(enemy_type: EnemyType) -> (enemy: Enemy)
        ensures
            enemy == (Enemy { enemy_type, stats: enemy_stats(enemy_type) }),
    {
        let stats = get_stats_for_enemy(enemy_type);
        Enemy { enemy_type, stats }
    }
}

/// The base statistics that every enemy of the given archetype fights with.
pub fn get_stats_for_enemy(enemy_type: EnemyType) -> (stats: Stats)
    ensures
        stats == enemy_stats(enemy_type),
{
    match enemy_type {
        EnemyType::SmallGoblin => Stats { hp: 30, attack: 5, speed: 8, critical_chance: 5 },
        EnemyType::MediumGoblin => Stats { hp: 50, attack: 8, speed: 5, critical_chance: 10 },
        EnemyType::LargeGoblin => Stats { hp: 80, attack: 12, speed: 3, critical_chance: 8 },
        EnemyType::Wolf => Stats { hp: 100, attack: 15, speed: 12, critical_chance: 20 },
    }
}

/// Every archetype has between 1 and 100 in each statistic.
pub proof fn lemma_enemy_stats_bounded(enemy_type: EnemyType)
    ensures
        enemy_stats(enemy_type).within(1, 100),
{
}

} // verus!
