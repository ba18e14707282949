//! Collectible items and the permanent bonus that each grants.

use crate::stats::Stats;
use vstd::prelude::*;

verus! {

/// The kinds of collectible item. Each one raises a single statistic.
#[derive(Clone, Copy, Debug, PartialEq, Eq, Structural)]
pub enum ItemType {
    /// Armor: more hit points.
    Armure,
    /// Katana: more speed.
    Katana,
    /// Gloves: more attack.
    Gants,
    /// Pendant: more critical chance.
    Pendentif,
}

/// An item lying on a map.
#[derive(Clone, Copy, Debug, PartialEq, Eq, Structural)]
pub struct Item {
    pub item_type: ItemType,
}

/// The largest amount by which one item raises any statistic.
pub const ITEM_GAIN_MAX: i32 = 50;

/// The bonus of each kind of item.
///
/// Of the balance tables that have been in use, this is the later one: the katana
/// gives 10 speed, the gloves 20 attack and the pendant 15 critical chance.
pub open spec fn item_stats(item_type: ItemType) -> Stats {
    match item_type {
        ItemType::Armure => Stats { hp: 50, attack: 0, speed: 0, critical_chance: 0 },
        ItemType::Katana => Stats { hp: 0, attack: 0, speed: 10, critical_chance: 0 },
        ItemType::Gants => Stats { hp: 0, attack: 20, speed: 0, critical_chance: 0 },
        ItemType::Pendentif => Stats { hp: 0, attack: 0, speed: 0, critical_chance: 15 },
    }
}

/// The display name of each kind of item.
pub open spec fn item_name(item_type: ItemType) -> Seq<char> {
    match item_type {
        ItemType::Armure => "Armure"@,
        ItemType::Katana => "Katana"@,
        ItemType::Gants => "Gants"@,
        ItemType::Pendentif => "Pendentif"@,
    }
}

impl ItemType {
    /// The name under which the item is shown and logged.
    pub fn get_name(&self) -> (name: &'static str)
        ensures
            name@ == item_name(*self),
    {
        match self {
            ItemType::Armure => "Armure",
            ItemType::Katana => "Katana",
            ItemType::Gants => "Gants",
            ItemType::Pendentif => "Pendentif",
        }
    }
}

/// The bonus that picking up an item of the given kind adds, once and for good,
/// to the player's statistics.
pub fn get_stats_for_item(item_type: ItemType) -> (stats: Stats)
    ensures
        stats == item_stats(item_type),
{
    match item_type {
        ItemType::Armure => Stats { hp: 50, attack: 0, speed: 0, critical_chance: 0 },
        ItemType::Katana => Stats { hp: 0, attack: 0, speed: 10, critical_chance: 0 },
        ItemType::Gants => Stats { hp: 0, attack: 20, speed: 0, critical_chance: 0 },
        ItemType::Pendentif => Stats { hp: 0, attack: 0, speed: 0, critical_chance: 15 },
    }
}

/// No item lowers a statistic, and none raises one by more than `ITEM_GAIN_MAX`.
pub proof fn lemma_item_stats_bounded(item_type: ItemType)
    ensures
        item_stats(item_type).within(0, ITEM_GAIN_MAX as int),
{
}

} // verus!
