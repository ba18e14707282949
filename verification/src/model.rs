//! A game as a mathematical value, and what each action makes of it.
//!
//! Every action of `Game` is told here as a function from the game before to
//! the game after, together with the events that the action gives rise to.

use crate::combat::{AttackRolls, CombatPhase, CombatState, CurrentEnemy};
use crate::enemy::{enemy_stats, EnemyType};
use crate::game::{step_cell, Action, Direction, GameState};
use crate::item::{item_stats, ItemType, ITEM_GAIN_MAX};
use crate::log::LogEvent;
use crate::map::{MapView, WorldView};
use crate::placement::entry_at;
use crate::player::{class_stats, reward_stats, Player, PlayerClass, RewardChoice, REWARD_GAIN_MAX};
use crate::progress::live_of;
use crate::stats::Position;
use vstd::prelude::*;

verus! {

/// No statistic of a player ever exceeds this value: the best starting value,
/// and the gain of as many items and victories as one world can hold.
pub const STAT_CEILING: i32 = 60_000_120;

/// A game as a mathematical value.
pub struct GameView {
    /// Where the game stands.
    pub state: GameState,
    /// The maps, and which of them the player is on.
    pub world: WorldView,
    /// The cells whose item the player has collected.
    pub collected: Set<(usize, Position)>,
    /// The cells whose enemy the player has beaten.
    pub defeated: Set<(usize, Position)>,
    /// The player, once a class is chosen.
    pub player: Option<Player>,
    /// The items that lie on the current map.
    pub items: Seq<(Position, ItemType)>,
    /// The enemies that stand on the current map.
    pub enemies: Seq<(Position, EnemyType)>,
    /// The combat session, while the player fights.
    pub combat: Option<CombatState>,
}

impl GameView {
    /// The map that the player is on.
    pub open spec fn map(self) -> MapView {
        self.world.current_map()
    }

    /// The items of the current map that are not collected yet.
    pub open spec fn live_items(self) -> Seq<(Position, ItemType)> {
        live_of(self.map().items, self.world.current_map_index, self.collected)
    }

    /// The enemies of the current map that are not beaten yet.
    pub open spec fn live_enemies(self) -> Seq<(Position, EnemyType)> {
        live_of(self.map().enemies, self.world.current_map_index, self.defeated)
    }

    /// The game with the items and enemies of the current map brought up anew:
    /// those that the progress tracker does not hold.
    pub open spec fn spawned(self) -> GameView {
        GameView { items: self.live_items(), enemies: self.live_enemies(), ..self }
    }

    /// What a statistic of the player may still reach: the ceiling, less the gain
    /// of every item and of every victory that is still to be had.
    pub open spec fn headroom(self) -> int {
        STAT_CEILING - ITEM_GAIN_MAX * self.world.items_left(self.collected) - REWARD_GAIN_MAX
            * self.world.enemies_left(self.defeated)
    }

    /// What holds of the combat session `combat` in a game whose player is
    /// `player`: the enemy has the statistics of its archetype and is the live
    /// enemy of the player's cell, no counter exceeds the hit points of its side,
    /// and the phase agrees with the counters.
    pub open spec fn combat_wf(self, player: Player, combat: CombatState) -> bool {
        &&& combat.enemy.stats == enemy_stats(combat.enemy.enemy_type)
        &&& combat.enemy.position == player.position
        &&& entry_at(self.enemies, combat.enemy.position) == Some(combat.enemy.enemy_type)
        &&& combat.player_hp <= player.stats.hp
        &&& combat.enemy_hp <= combat.enemy.stats.hp
        &&& match combat.phase {
            CombatPhase::PlayerTurn => combat.player_hp > 0 && combat.enemy_hp > 0,
            CombatPhase::EnemyTurnResolved => false,
            CombatPhase::AwaitingRewardChoice => combat.enemy_hp <= 0,
            CombatPhase::AwaitingRestartChoice => combat.player_hp <= 0,
        }
    }

    /// What holds of every game:
    /// - the world is well formed;
    /// - the items and enemies on the current map are exactly those placed there
    ///   that the progress tracker does not hold;
    /// - before a class is chosen there is no player, no progress, and the first
    ///   map is the current one;
    /// - afterwards there is a player, who stands on a walkable cell of the current
    ///   map, who has at least one hit point, and whose statistics are not
    ///   negative and leave room for every gain still to be had;
    /// - there is a combat session in the state `Combat` and in no other, against
    ///   an enemy that stands on the player's cell.
    pub open spec fn wf(self) -> bool {
        &&& self.world.wf()
        &&& self.items == self.live_items()
        &&& self.enemies == self.live_enemies()
        &&& match self.state {
            GameState::ClassSelection => {
                &&& self.player is None
                &&& self.combat is None
                &&& self.collected == Set::<(usize, Position)>::empty()
                &&& self.defeated == Set::<(usize, Position)>::empty()
                &&& self.world.current_map_index == 0
            },
            GameState::Roaming | GameState::MapTransition => {
                &&& self.player is Some
                &&& self.combat is None
            },
            GameState::Combat => {
                &&& self.player is Some
                &&& self.combat is Some
                &&& self.combat_wf(self.player->0, self.combat->0)
            },
        }
        &&& self.player matches Some(player) ==> {
            &&& self.map().walkable(player.position.x as int, player.position.y as int)
            &&& player.stats.within(0, self.headroom())
            &&& player.stats.hp >= 1
        }
    }

    /// The game after the choice of a class.
    ///
    /// In the state `ClassSelection` a player of that class, with the starting
    /// statistics of the class, is put on the starting cell of the current map,
    /// and the game goes to `Roaming`. In any other state nothing changes.
    pub open spec fn after_class_selection(self, class: PlayerClass) -> GameView {
        if self.state == GameState::ClassSelection {
            GameView {
                state: GameState::Roaming,
                player: Some(
                    Player {
                        class,
                        stats: class_stats(class),
                        position: self.map().player_start,
                    },
                ),
                ..self
            }.spawned()
        } else {
            self
        }
    }

    /// The cell that a move in the given direction aims at.
    pub open spec fn move_target(self, direction: Direction) -> Position {
        step_cell(self.player->0.position, direction, self.map().width, self.map().height)
    }

    /// Whether a move in the given direction takes the player anywhere: the game
    /// is in `Roaming` and the cell aimed at can be walked on.
    pub open spec fn can_move(self, direction: Direction) -> bool {
        let target = self.move_target(direction);
        &&& self.state == GameState::Roaming
        &&& self.player is Some
        &&& self.map().walkable(target.x as int, target.y as int)
    }

    /// The game with the player on the cell `target`.
    pub open spec fn with_player_at(self, target: Position) -> GameView {
        GameView { player: Some(Player { position: target, ..self.player->0 }), ..self }
    }

    /// The game after the player has walked into the enemy of archetype `kind` on
    /// the player's cell: a combat session is opened and the game goes to
    /// `Combat`.
    pub open spec fn engaged(self, kind: EnemyType) -> GameView {
        let player = self.player->0;
        GameView {
            state: GameState::Combat,
            combat: Some(
                CombatState::opening(
                    player.stats,
                    CurrentEnemy {
                        position: player.position,
                        enemy_type: kind,
                        stats: enemy_stats(kind),
                    },
                ),
            ),
            ..self
        }
    }

    /// The game after the player has picked up the item of kind `kind` on the
    /// player's cell: the bonus of the item is added to the player's statistics,
    /// the cell is recorded as collected, and the item lies on the map no more.
    pub open spec fn collected_item(self, kind: ItemType) -> GameView {
        let player = self.player->0;
        GameView {
            player: Some(Player { stats: player.stats.gained(item_stats(kind)), ..player }),
            collected: self.collected.insert((self.world.current_map_index, player.position)),
            ..self
        }.spawned()
    }

    /// The game after the player has picked up what lies on the player's cell, if
    /// anything does.
    pub open spec fn picked_up(self) -> GameView {
        match entry_at(self.items, self.player->0.position) {
            Some(kind) => self.collected_item(kind),
            None => self,
        }
    }

    /// The game after the player has gone through the connection of the player's
    /// cell, if the cell has one: the map that the connection leads to becomes the
    /// current one, the player stands on the cell of arrival, and the game goes to
    /// `MapTransition`.
    pub open spec fn crossed(self) -> GameView {
        match self.map().destination(self.player->0.position) {
            Some(destination) => GameView {
                state: GameState::MapTransition,
                world: WorldView { current_map_index: destination.0, ..self.world },
                player: Some(Player { position: destination.1, ..self.player->0 }),
                ..self
            }.spawned(),
            None => self,
        }
    }

    /// Whether an enemy stands on the cell `target`.
    pub open spec fn enemy_stands(self, target: Position) -> bool {
        entry_at(self.enemies, target) is Some
    }

    /// Whether the player fights on arriving at the cell `target`: an enemy stands
    /// there, and the cell has no connection.
    pub open spec fn meets_enemy(self, target: Position) -> bool {
        self.enemy_stands(target) && self.map().destination(target) is None
    }

    /// The game after a move in the given direction.
    ///
    /// The move aims at the next cell in that direction, or at the player's own
    /// cell where the grid ends. Outside `Roaming`, or when the cell aimed at
    /// cannot be walked on, nothing changes. Otherwise the player steps on the
    /// cell, and two rules decide what follows.
    ///
    /// The enemy comes before the item: where an enemy stands on the cell, the
    /// item of the cell, if there is one, is not picked up in this move.
    ///
    /// The connection comes before the fight: a cell with a connection takes the
    /// player to the other map at once, so that an enemy on such a cell is never
    /// fought.
    ///
    /// So on a cell with an enemy the player goes through the connection, if the
    /// cell has one, and begins the fight, if it has none. On a cell without an
    /// enemy the player picks up the item, if there is one, and then goes through
    /// the connection, if there is one.
    pub open spec fn after_move(self, direction: Direction) -> GameView {
        if self.can_move(direction) {
            let target = self.move_target(direction);
            let there = self.with_player_at(target);
            if there.meets_enemy(target) {
                there.engaged(entry_at(there.enemies, target)->0)
            } else if there.enemy_stands(target) {
                there.crossed()
            } else {
                there.picked_up().crossed()
            }
        } else {
            self
        }
    }

    /// The events of a move in the given direction.
    pub open spec fn move_events(self, direction: Direction) -> Seq<LogEvent> {
        if self.can_move(direction) {
            let target = self.move_target(direction);
            if self.meets_enemy(target) {
                seq![LogEvent::Encounter(entry_at(self.enemies, target)->0)]
            } else if self.enemy_stands(target) {
                Seq::empty()
            } else {
                match entry_at(self.items, target) {
                    Some(kind) => seq![
                        LogEvent::ItemFound(kind),
                        LogEvent::StatsGained(item_stats(kind)),
                    ],
                    None => Seq::empty(),
                }
            }
        } else {
            Seq::empty()
        }
    }

    /// The game after the tick that follows the crossing of a connection: from
    /// `MapTransition` the game goes to `Roaming`, whatever else holds. In any
    /// other state nothing changes.
    pub open spec fn after_map_transition(self) -> GameView {
        if self.state == GameState::MapTransition {
            GameView { state: GameState::Roaming, ..self }.spawned()
        } else {
            self
        }
    }

    /// Whether an attack is carried out: the game is in `Combat`.
    pub open spec fn in_combat(self) -> bool {
        self.state == GameState::Combat && self.combat is Some && self.player is Some
    }

    /// The game after an attack with the given rolls: see
    /// `CombatState::after_attack`. Outside `Combat` nothing changes.
    pub open spec fn after_attack(self, rolls: AttackRolls) -> GameView {
        if self.in_combat() {
            GameView {
                combat: Some(self.combat->0.after_attack(self.player->0.stats, rolls)),
                ..self
            }
        } else {
            self
        }
    }

    /// The events of an attack with the given rolls.
    pub open spec fn attack_events(self, rolls: AttackRolls) -> Seq<LogEvent> {
        if self.in_combat() {
            self.combat->0.attack_events(self.player->0.stats, rolls)
        } else {
            Seq::empty()
        }
    }

    /// Whether the player has a reward to choose.
    pub open spec fn awaits_reward(self) -> bool {
        self.in_combat() && self.combat->0.phase == CombatPhase::AwaitingRewardChoice
    }

    /// The game after the choice of a reward.
    ///
    /// While the player has a reward to choose, the bonus of the reward is added
    /// to the player's statistics, the cell of the beaten enemy is recorded as
    /// defeated, the combat session ends and the game goes to `Roaming`. At any
    /// other time nothing changes.
    pub open spec fn after_reward_choice(self, choice: RewardChoice) -> GameView {
        if self.awaits_reward() {
            let player = self.player->0;
            GameView {
                state: GameState::Roaming,
                player: Some(Player { stats: player.stats.gained(reward_stats(choice)), ..player }),
                defeated: self.defeated.insert(
                    (self.world.current_map_index, self.combat->0.enemy.position),
                ),
                combat: None,
                ..self
            }.spawned()
        } else {
            self
        }
    }

    /// The events of the choice of a reward.
    pub open spec fn reward_events(self, choice: RewardChoice) -> Seq<LogEvent> {
        if self.awaits_reward() {
            seq![
                LogEvent::RewardGained(choice),
                LogEvent::EnemyDefeated(self.combat->0.enemy.enemy_type),
            ]
        } else {
            Seq::empty()
        }
    }

    /// Whether the player is beaten and can only restart.
    pub open spec fn awaits_restart(self) -> bool {
        self.in_combat() && self.combat->0.phase == CombatPhase::AwaitingRestartChoice
    }

    /// The game after a restart.
    ///
    /// While the player is beaten, the whole game begins anew: the progress
    /// tracker is emptied, the first map becomes the current one, the player and
    /// the combat session are gone, and the game goes to `ClassSelection`. At any
    /// other time nothing changes.
    pub open spec fn after_restart(self) -> GameView {
        if self.awaits_restart() {
            GameView {
                state: GameState::ClassSelection,
                world: WorldView { current_map_index: 0, ..self.world },
                collected: Set::empty(),
                defeated: Set::empty(),
                player: None,
                combat: None,
                ..self
            }.spawned()
        } else {
            self
        }
    }

    /// The game after an action.
    pub open spec fn after(self, action: Action) -> GameView {
        match action {
            Action::SelectClass(class) => self.after_class_selection(class),
            Action::Move(direction) => self.after_move(direction),
            Action::FinishTransition => self.after_map_transition(),
            Action::Attack(rolls) => self.after_attack(rolls),
            Action::ChooseReward(choice) => self.after_reward_choice(choice),
            Action::Restart => self.after_restart(),
        }
    }

    /// The events of an action.
    pub open spec fn events_of(self, action: Action) -> Seq<LogEvent> {
        match action {
            Action::SelectClass(_) => Seq::empty(),
            Action::Move(direction) => self.move_events(direction),
            Action::FinishTransition => Seq::empty(),
            Action::Attack(rolls) => self.attack_events(rolls),
            Action::ChooseReward(choice) => self.reward_events(choice),
            Action::Restart => Seq::empty(),
        }
    }

    /// The game after a series of actions, carried out in order.
    pub open spec fn after_all(self, actions: Seq<Action>) -> GameView
        decreases actions.len(),
    {
        if actions.len() == 0 {
            self
        } else {
            self.after_all(actions.drop_last()).after(actions.last())
        }
    }
}

} // verus!
