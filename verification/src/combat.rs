//! Turn-based combat: how one blow is resolved, and how a combat session moves
//! from the player's turn to a victory or a defeat.

use crate::dice::{is_roll, roll_percent};
use crate::enemy::{Enemy, EnemyType};
use crate::log::LogEvent;
use crate::stats::{Position, Stats};
use vstd::prelude::*;

verus! {

/// The damage of a blow that was not dodged.
#[derive(Clone, Copy, Debug, PartialEq, Eq, Structural)]
pub struct DamageResult {
    pub damage: i32,
    pub is_critical: bool,
}

/// The outcome of one blow of an attacker against a defender.
#[derive(Clone, Copy, Debug, PartialEq, Eq, Structural)]
pub struct AttackResult {
    pub dodged: bool,
    pub damage: i32,
    pub critical: bool,
}

/// A blow is dodged when the dodge roll does not exceed the defender's speed.
pub open spec fn dodges(defender_speed: int, dodge_roll: int) -> bool {
    dodge_roll <= defender_speed
}

/// A blow is critical when the critical roll does not exceed the attacker's
/// critical chance.
pub open spec fn lands_critical(critical_chance: int, crit_roll: int) -> bool {
    crit_roll <= critical_chance
}

/// The damage of a blow that lands: the attack, doubled when the blow is critical.
pub open spec fn damage_dealt(attack: int, critical: bool) -> int {
    if critical {
        2 * attack
    } else {
        attack
    }
}

/// Whether the damage of a blow with this critical roll can be held in an `i32`.
pub open spec fn damage_fits(attacker: Stats, crit_roll: int) -> bool {
    let damage = damage_dealt(
        attacker.attack as int,
        lands_critical(attacker.critical_chance as int, crit_roll),
    );
    i32::MIN <= damage <= i32::MAX
}

/// Whether every number that a blow with these rolls computes can be held in an
/// `i32`: a dodged blow computes none, another one its damage.
pub open spec fn blow_computable(
    attacker: Stats,
    defender: Stats,
    dodge_roll: int,
    crit_roll: int,
) -> bool {
    !dodges(defender.speed as int, dodge_roll) ==> damage_fits(attacker, crit_roll)
}

/// The outcome of one blow, given the two rolls.
///
/// The dodge roll is looked at first: a dodged blow does no damage and is never
/// critical, whatever the attacker's statistics and the critical roll.
pub open spec fn attack_outcome(
    attacker: Stats,
    defender: Stats,
    dodge_roll: int,
    crit_roll: int,
) -> AttackResult {
    if dodges(defender.speed as int, dodge_roll) {
        AttackResult { dodged: true, damage: 0, critical: false }
    } else {
        let critical = lands_critical(attacker.critical_chance as int, crit_roll);
        AttackResult {
            dodged: false,
            damage: damage_dealt(attacker.attack as int, critical) as i32,
            critical,
        }
    }
}

/// Whether a defender of the given speed dodges a blow with the given dodge roll.
pub fn check_dodge(defender_speed: i32, dodge_roll: i32) -> (dodged: bool)
    ensures
        dodged == dodges(defender_speed as int, dodge_roll as int),
{
    dodge_roll <= defender_speed
}

/// The damage that an attacker deals with a blow that lands, given the critical
/// roll: twice the attack when the roll does not exceed the critical chance.
pub fn calculate_damage(attacker_stats: &Stats, crit_roll: i32) -> (result: DamageResult)
    requires
        damage_fits(*attacker_stats, crit_roll as int),
    ensures
        result.is_critical == lands_critical(
            attacker_stats.critical_chance as int,
            crit_roll as int,
        ),
        result.damage == damage_dealt(attacker_stats.attack as int, result.is_critical),
{
    let mut damage = attacker_stats.attack;
    let is_critical = crit_roll <= attacker_stats.critical_chance;
    if is_critical {
        damage = damage * 2;
    }
    DamageResult { damage, is_critical }
}

/// Resolves one blow with the two rolls given by the caller.
pub fn resolve_attack_with(
    attacker: &Stats,
    defender: &Stats,
    dodge_roll: i32,
    crit_roll: i32,
) -> (result: AttackResult)
    requires
        blow_computable(*attacker, *defender, dodge_roll as int, crit_roll as int),
    ensures
        result == attack_outcome(*attacker, *defender, dodge_roll as int, crit_roll as int),
        result.dodged ==> result.damage == 0 && !result.critical,
        !result.dodged ==> result.damage == damage_dealt(attacker.attack as int, result.critical),
{
    if check_dodge(defender.speed, dodge_roll) {
        AttackResult { dodged: true, damage: 0, critical: false }
    } else {
        let hit = calculate_damage(attacker, crit_roll);
        AttackResult { dodged: false, damage: hit.damage, critical: hit.is_critical }
    }
}

/// Resolves one blow with rolls drawn from the random generator: first the dodge
/// roll and, only when the blow is not dodged, the critical roll.
///
/// Which rolls come up is not known beforehand; the outcome is that of
/// `attack_outcome` for some pair of rolls between 1 and 100.
pub fn resolve_attack(attacker: &Stats, defender: &Stats) -> (result: AttackResult)
    requires
        forall|dodge_roll: int, crit_roll: int|
            is_roll(dodge_roll) && is_roll(crit_roll) ==> #[trigger] blow_computable(
                *attacker,
                *defender,
                dodge_roll,
                crit_roll,
            ),
    ensures
        exists|dodge_roll: int, crit_roll: int|
            is_roll(dodge_roll) && is_roll(crit_roll) && result == #[trigger] attack_outcome(
                *attacker,
                *defender,
                dodge_roll,
                crit_roll,
            ),
{
    let dodge_roll = roll_percent();
    if check_dodge(defender.speed, dodge_roll) {
        let result = AttackResult { dodged: true, damage: 0, critical: false };
        assert(result == attack_outcome(*attacker, *defender, dodge_roll as int, 1));
        result
    } else {
        let crit_roll = roll_percent();
        assert(blow_computable(*attacker, *defender, dodge_roll as int, crit_roll as int));
        let hit = calculate_damage(attacker, crit_roll);
        let result = AttackResult { dodged: false, damage: hit.damage, critical: hit.is_critical };
        assert(result == attack_outcome(
            *attacker,
            *defender,
            dodge_roll as int,
            crit_roll as int,
        ));
        result
    }
}

/// Where a combat session stands.
#[derive(Clone, Copy, Debug, PartialEq, Eq, Structural)]
pub enum CombatPhase {
    /// The player may attack.
    PlayerTurn,
    /// The enemy's blow has just been dealt. A session never rests here: it goes
    /// on at once to `PlayerTurn` or, when the player is beaten, to
    /// `AwaitingRestartChoice`.
    EnemyTurnResolved,
    /// The enemy is beaten; the player has yet to choose a reward.
    AwaitingRewardChoice,
    /// The player is beaten; only a restart is left.
    AwaitingRestartChoice,
}

/// The enemy that the player is fighting: where it stood on the map, its
/// archetype and the statistics it fights with.
#[derive(Clone, Copy, Debug, PartialEq, Eq, Structural)]
pub struct CurrentEnemy {
    pub position: Position,
    pub enemy_type: EnemyType,
    pub stats: Stats,
}

/// A combat session: the hit points left to each side, the phase, and the enemy.
///
/// The hit points are counters of their own. A blow lowers the counter and leaves
/// the `Stats` alone, whose `hp` remains the maximum. A counter may fall below
/// zero; a side is beaten when its counter is zero or less.
#[derive(Clone, Copy, Debug, PartialEq, Eq, Structural)]
pub struct CombatState {
    pub player_hp: i32,
    pub enemy_hp: i32,
    pub phase: CombatPhase,
    pub enemy: CurrentEnemy,
}

/// The four rolls that one attack action may use, in the order in which they are
/// looked at.
#[derive(Clone, Copy, Debug, PartialEq, Eq, Structural)]
pub struct AttackRolls {
    /// Decides whether the enemy dodges the player's blow.
    pub enemy_dodge: i32,
    /// Decides whether the player's blow is critical.
    pub player_crit: i32,
    /// Decides whether the player dodges the enemy's blow.
    pub player_dodge: i32,
    /// Decides whether the enemy's blow is critical.
    pub enemy_crit: i32,
}

impl AttackRolls {
    /// Whether each of the four rolls is a value that a percentile die can show.
    pub open spec fn valid(self) -> bool {
        &&& is_roll(self.enemy_dodge as int)
        &&& is_roll(self.player_crit as int)
        &&& is_roll(self.player_dodge as int)
        &&& is_roll(self.enemy_crit as int)
    }
}

/// Whether `hp - damage` can be held in an `i32`.
pub open spec fn blow_fits(hp: i32, blow: AttackResult) -> bool {
    i32::MIN <= hp - blow.damage <= i32::MAX
}

/// The events of the player's blow.
pub open spec fn player_blow_events(blow: AttackResult) -> Seq<LogEvent> {
    if blow.dodged {
        seq![LogEvent::EnemyDodged]
    } else if blow.critical {
        seq![LogEvent::PlayerCritical(blow.damage)]
    } else {
        seq![LogEvent::PlayerHit(blow.damage)]
    }
}

/// The events of the enemy's blow.
pub open spec fn enemy_blow_events(blow: AttackResult) -> Seq<LogEvent> {
    if blow.dodged {
        seq![LogEvent::PlayerDodged]
    } else if blow.critical {
        seq![LogEvent::EnemyCritical(blow.damage)]
    } else {
        seq![LogEvent::EnemyHit(blow.damage)]
    }
}

impl CombatState {
    /// The session at the moment the player walks into the enemy: both counters
    /// at the maximum of hit points of their side, and the player to attack.
    pub open spec fn opening(player: Stats, enemy: CurrentEnemy) -> CombatState {
        CombatState {
            player_hp: player.hp,
            enemy_hp: enemy.stats.hp,
            phase: CombatPhase::PlayerTurn,
            enemy,
        }
    }

    /// The session after the player's blow: the enemy's counter is lowered by the
    /// damage, and the enemy is beaten when the counter is zero or less.
    pub open spec fn after_player_blow(self, blow: AttackResult) -> CombatState {
        let enemy_hp = (self.enemy_hp - blow.damage) as i32;
        CombatState {
            enemy_hp,
            phase: if enemy_hp <= 0 {
                CombatPhase::AwaitingRewardChoice
            } else {
                CombatPhase::PlayerTurn
            },
            ..self
        }
    }

    /// The session after the enemy's blow: the player's counter is lowered by the
    /// damage, and the player is beaten when the counter is zero or less.
    pub open spec fn after_enemy_blow(self, blow: AttackResult) -> CombatState {
        let player_hp = (self.player_hp - blow.damage) as i32;
        CombatState {
            player_hp,
            phase: if player_hp <= 0 {
                CombatPhase::AwaitingRestartChoice
            } else {
                CombatPhase::PlayerTurn
            },
            ..self
        }
    }

    /// The player's blow in an attack action with the given rolls.
    pub open spec fn player_blow(self, player: Stats, rolls: AttackRolls) -> AttackResult {
        attack_outcome(
            player,
            self.enemy.stats,
            rolls.enemy_dodge as int,
            rolls.player_crit as int,
        )
    }

    /// The enemy's blow in an attack action with the given rolls.
    pub open spec fn enemy_blow(self, player: Stats, rolls: AttackRolls) -> AttackResult {
        attack_outcome(
            self.enemy.stats,
            player,
            rolls.player_dodge as int,
            rolls.enemy_crit as int,
        )
    }

    /// The session after one attack action.
    ///
    /// Outside the player's turn the action is ignored. In it the player strikes
    /// first. An enemy that is beaten by that blow does not strike back; one that
    /// is not strikes back at once.
    pub open spec fn after_attack(self, player: Stats, rolls: AttackRolls) -> CombatState {
        if self.phase != CombatPhase::PlayerTurn {
            self
        } else {
            let struck = self.after_player_blow(self.player_blow(player, rolls));
            if struck.phase == CombatPhase::AwaitingRewardChoice {
                struck
            } else {
                struck.after_enemy_blow(self.enemy_blow(player, rolls))
            }
        }
    }

    /// The events of one attack action, in the order in which they happen.
    pub open spec fn attack_events(self, player: Stats, rolls: AttackRolls) -> Seq<LogEvent> {
        if self.phase != CombatPhase::PlayerTurn {
            Seq::empty()
        } else {
            let first = self.player_blow(player, rolls);
            let struck = self.after_player_blow(first);
            if struck.phase == CombatPhase::AwaitingRewardChoice {
                player_blow_events(first).push(LogEvent::Victory)
            } else {
                let reply = self.enemy_blow(player, rolls);
                let events = player_blow_events(first) + enemy_blow_events(reply);
                if struck.after_enemy_blow(reply).phase == CombatPhase::AwaitingRestartChoice {
                    events.push(LogEvent::Defeat)
                } else {
                    events
                }
            }
        }
    }

    /// Whether every number that an attack action with the given rolls computes
    /// can be held in an `i32`.
    pub open spec fn attack_fits(self, player: Stats, rolls: AttackRolls) -> bool {
        let first = self.player_blow(player, rolls);
        let struck = self.after_player_blow(first);
        let reply = self.enemy_blow(player, rolls);
        &&& blow_computable(
            player,
            self.enemy.stats,
            rolls.enemy_dodge as int,
            rolls.player_crit as int,
        )
        &&& blow_fits(self.enemy_hp, first)
        &&& struck.phase == CombatPhase::PlayerTurn ==> {
            &&& blow_computable(
                self.enemy.stats,
                player,
                rolls.player_dodge as int,
                rolls.enemy_crit as int,
            )
            &&& blow_fits(self.player_hp, reply)
        }
    }

    /// Whether an attack action can be carried out whatever the rolls.
    pub open spec fn attack_always_fits(self, player: Stats) -> bool {
        forall|rolls: AttackRolls| rolls.valid() ==> #[trigger] self.attack_fits(player, rolls)
    }

    /// Opens the session for a fight of the player against the enemy that stood at
    /// `position`.
    pub fn start_combat(player: &Stats, position: Position, enemy: &Enemy) -> (session:
        CombatState)
        ensures
            session == Self::opening(
                *player,
                CurrentEnemy { position, enemy_type: enemy.enemy_type, stats: enemy.stats },
            ),
    {
        CombatState {
            player_hp: player.hp,
            enemy_hp: enemy.stats.hp,
            phase: CombatPhase::PlayerTurn,
            enemy: CurrentEnemy { position, enemy_type: enemy.enemy_type, stats: enemy.stats },
        }
    }

    /// Whether the player may attack.
    pub fn is_player_turn(&self) -> (turn: bool)
        ensures
            turn == (self.phase == CombatPhase::PlayerTurn),
    {
        self.phase == CombatPhase::PlayerTurn
    }

    /// The player's hit points as shown: the counter, or zero when it is below.
    pub fn displayed_player_hp(&self) -> (hp: i32)
        ensures
            hp == if self.player_hp < 0 { 0 } else { self.player_hp },
    {
        if self.player_hp < 0 {
            0
        } else {
            self.player_hp
        }
    }

    /// The enemy's hit points as shown: the counter, or zero when it is below.
    pub fn displayed_enemy_hp(&self) -> (hp: i32)
        ensures
            hp == if self.enemy_hp < 0 { 0 } else { self.enemy_hp },
    {
        if self.enemy_hp < 0 {
            0
        } else {
            self.enemy_hp
        }
    }

    /// Applies the player's blow to the enemy and says what happened.
    fn strike_enemy(&mut self, blow: AttackResult, events: &mut Vec<LogEvent>)
        requires
            old(self).phase == CombatPhase::PlayerTurn,
            blow_fits(old(self).enemy_hp, blow),
        ensures
            *final(self) == old(self).after_player_blow(blow),
            final(events)@ == old(events)@ + player_blow_events(blow) + (if final(self).phase
                == CombatPhase::AwaitingRewardChoice {
                seq![LogEvent::Victory]
            } else {
                Seq::empty()
            }),
    {
        if blow.dodged {
            events.push(LogEvent::EnemyDodged);
        } else if blow.critical {
            events.push(LogEvent::PlayerCritical(blow.damage));
        } else {
            events.push(LogEvent::PlayerHit(blow.damage));
        }
        self.enemy_hp = self.enemy_hp - blow.damage;
        if self.enemy_hp <= 0 {
            self.phase = CombatPhase::AwaitingRewardChoice;
            events.push(LogEvent::Victory);
        }
    }

    /// Applies the enemy's blow to the player and says what happened.
    fn strike_player(&mut self, blow: AttackResult, events: &mut Vec<LogEvent>)
        requires
            old(self).phase == CombatPhase::PlayerTurn,
            blow_fits(old(self).player_hp, blow),
        ensures
            *final(self) == old(self).after_enemy_blow(blow),
            final(events)@ == old(events)@ + enemy_blow_events(blow) + (if final(self).phase
                == CombatPhase::AwaitingRestartChoice {
                seq![LogEvent::Defeat]
            } else {
                Seq::empty()
            }),
    {
        if blow.dodged {
            events.push(LogEvent::PlayerDodged);
        } else if blow.critical {
            events.push(LogEvent::EnemyCritical(blow.damage));
        } else {
            events.push(LogEvent::EnemyHit(blow.damage));
        }
        self.player_hp = self.player_hp - blow.damage;
        self.phase = CombatPhase::EnemyTurnResolved;
        if self.player_hp <= 0 {
            self.phase = CombatPhase::AwaitingRestartChoice;
            events.push(LogEvent::Defeat);
        } else {
            self.phase = CombatPhase::PlayerTurn;
        }
    }

    /// Carries out one attack action with the rolls given by the caller.
    pub fn attack_with(&mut self, player: &Stats, rolls: AttackRolls) -> (events: Vec<LogEvent>)
        requires
            old(self).phase == CombatPhase::PlayerTurn ==> old(self).attack_fits(*player, rolls),
        ensures
            *final(self) == old(self).after_attack(*player, rolls),
            events@ == old(self).attack_events(*player, rolls),
    {
        let mut events: Vec<LogEvent> = Vec::new();
        if self.phase == CombatPhase::PlayerTurn {
            let enemy = self.enemy.stats;
            let first = resolve_attack_with(player, &enemy, rolls.enemy_dodge, rolls.player_crit);
            self.strike_enemy(first, &mut events);
            if self.phase == CombatPhase::PlayerTurn {
                let reply = resolve_attack_with(
                    &enemy,
                    player,
                    rolls.player_dodge,
                    rolls.enemy_crit,
                );
                self.strike_player(reply, &mut events);
            }
        }
        events
    }

    /// Carries out one attack action with rolls drawn from the random generator.
    ///
    /// Which rolls come up is not known beforehand; the session and the events
    /// are those of `after_attack` and `attack_events` for some four rolls
    /// between 1 and 100.
    pub fn attack(&mut self, player: &Stats) -> (events: Vec<LogEvent>)
        requires
            old(self).phase == CombatPhase::PlayerTurn ==> old(self).attack_always_fits(*player),
        ensures
            exists|rolls: AttackRolls|
                rolls.valid() && *final(self) == #[trigger] old(self).after_attack(*player, rolls)
                    && events@ == old(self).attack_events(*player, rolls),
    {
        let mut events: Vec<LogEvent> = Vec::new();
        let ghost one = AttackRolls {
            enemy_dodge: 1,
            player_crit: 1,
            player_dodge: 1,
            enemy_crit: 1,
        };
        if self.phase == CombatPhase::PlayerTurn {
            let enemy = self.enemy.stats;
            assert forall|d: int, c: int|
                is_roll(d) && is_roll(c) implies #[trigger] blow_computable(
                *player,
                enemy,
                d,
                c,
            ) by {
                let rolls = AttackRolls { enemy_dodge: d as i32, player_crit: c as i32, ..one };
                assert(old(self).attack_fits(*player, rolls));
            }
            let first = resolve_attack(player, &enemy);
            let ghost (enemy_dodge, player_crit) = choose|d: int, c: int|
                is_roll(d) && is_roll(c) && first == #[trigger] attack_outcome(
                    *player,
                    enemy,
                    d,
                    c,
                );
            let ghost struck = AttackRolls {
                enemy_dodge: enemy_dodge as i32,
                player_crit: player_crit as i32,
                ..one
            };
            assert(old(self).attack_fits(*player, struck));
            self.strike_enemy(first, &mut events);
            if self.phase == CombatPhase::PlayerTurn {
                assert forall|d: int, c: int|
                    is_roll(d) && is_roll(c) implies #[trigger] blow_computable(
                    enemy,
                    *player,
                    d,
                    c,
                ) by {
                    let rolls = AttackRolls {
                        player_dodge: d as i32,
                        enemy_crit: c as i32,
                        ..struck
                    };
                    assert(old(self).attack_fits(*player, rolls));
                }
                let reply = resolve_attack(&enemy, player);
                let ghost (player_dodge, enemy_crit) = choose|d: int, c: int|
                    is_roll(d) && is_roll(c) && reply == #[trigger] attack_outcome(
                        enemy,
                        *player,
                        d,
                        c,
                    );
                let ghost rolls = AttackRolls {
                    player_dodge: player_dodge as i32,
                    enemy_crit: enemy_crit as i32,
                    ..struck
                };
                assert(old(self).attack_fits(*player, rolls));
                self.strike_player(reply, &mut events);
                proof {
                    assert(*final(self) == old(self).after_attack(*player, rolls));
                }
            } else {
                proof {
                    assert(*final(self) == old(self).after_attack(*player, struck));
                }
            }
        } else {
            proof {
                assert(*final(self) == old(self).after_attack(*player, one));
            }
        }
        events
    }
}

} // verus!
