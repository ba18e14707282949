//! Grid positions and the numeric profile shared by players, enemies and items.

use vstd::prelude::*;

verus! {

/// A cell of a map grid: `x` counts columns from the left, `y` rows from the top.
#[derive(Clone, Copy, Debug, PartialEq, Eq, Structural, Hash)]
pub struct Position {
    pub x: usize,
    pub y: usize,
}

/// The numeric profile of a combatant, or the bonus that an item or a reward grants.
///
/// `hp` is the maximum of hit points, `attack` the damage of one blow, `speed` the
/// chance in percent to dodge a blow and `critical_chance` the chance in percent
/// that a blow counts twice. Neither percentage is capped: one above 100 always
/// succeeds.
#[derive(Clone, Copy, Debug, PartialEq, Eq, Structural)]
pub struct Stats {
    pub hp: i32,
    pub attack: i32,
    pub speed: i32,
    pub critical_chance: i32,
}

impl Default for Position {
    /// The cell in the top left corner.
    fn default() -> (position: Position)
        ensures
            position == (Position { x: 0, y: 0 }),
    {
        Position { x: 0, y: 0 }
    }
}

impl Default for Stats {
    /// The profile with zero in every field: the bonus that changes nothing.
    fn default() -> (stats: Stats)
        ensures
            stats == (Stats { hp: 0, attack: 0, speed: 0, critical_chance: 0 }),
    {
        Stats { hp: 0, attack: 0, speed: 0, critical_chance: 0 }
    }
}

impl Stats {
    /// Whether the field-wise sum of two profiles can be held in a `Stats`.
    pub open spec fn can_gain(self, bonus: Stats) -> bool {
        &&& i32::MIN <= self.hp + bonus.hp <= i32::MAX
        &&& i32::MIN <= self.attack + bonus.attack <= i32::MAX
        &&& i32::MIN <= self.speed + bonus.speed <= i32::MAX
        &&& i32::MIN <= self.critical_chance + bonus.critical_chance <= i32::MAX
    }

    /// The field-wise sum of two profiles.
    pub open spec fn gained(self, bonus: Stats) -> Stats {
        Stats {
            hp: (self.hp + bonus.hp) as i32,
            attack: (self.attack + bonus.attack) as i32,
            speed: (self.speed + bonus.speed) as i32,
            critical_chance: (self.critical_chance + bonus.critical_chance) as i32,
        }
    }

    /// Whether every field lies between `low` and `high`.
    pub open spec fn within(self, low: int, high: int) -> bool {
        &&& low <= self.hp <= high
        &&& low <= self.attack <= high
        &&& low <= self.speed <= high
        &&& low <= self.critical_chance <= high
    }

    /// Adds a bonus to every field.
    pub fn gain(self, bonus: Stats) -> (sum: Stats)
        requires
            self.can_gain(bonus),
        ensures
            sum == self.gained(bonus),
            sum.hp == self.hp + bonus.hp,
            sum.attack == self.attack + bonus.attack,
            sum.speed == self.speed + bonus.speed,
            sum.critical_chance == self.critical_chance + bonus.critical_chance,
    {
        Stats {
            hp: self.hp + bonus.hp,
            attack: self.attack + bonus.attack,
            speed: self.speed + bonus.speed,
            critical_chance: self.critical_chance + bonus.critical_chance,
        }
    }
}

} // verus!
