//! What holds of the rules of the game, whatever the game and whatever the
//! player does.

use crate::combat::{
    attack_outcome, damage_fits, AttackResult, AttackRolls, CombatPhase, CombatState, CurrentEnemy,
};
use crate::enemy::enemy_stats;
use crate::game::{step_cell, Action, Direction, GameState};
use crate::preservation::{lemma_actions_wf, lemma_attack_wf, lemma_move_wf};
use crate::model::GameView;
use crate::item::item_stats;
use crate::map::Tile;
use crate::placement::{entry_at, first_at, lemma_occupied_has_first, occupied};
use crate::player::{reward_stats, Player, RewardChoice};
use crate::progress::{lemma_live_entries, lemma_live_without};
use crate::stats::{Position, Stats};
use vstd::prelude::*;

verus! {

/// A blow whose dodge roll does not exceed the defender's speed is dodged: it
/// does no damage and is not critical, whoever attacks and whatever the critical
/// roll.
pub proof fn lemma_dodged_blow(
    attacker: Stats,
    other_attacker: Stats,
    defender: Stats,
    dodge_roll: int,
    crit_roll: int,
    other_crit_roll: int,
)
    requires
        dodge_roll <= defender.speed,
    ensures
        attack_outcome(attacker, defender, dodge_roll, crit_roll) == (AttackResult {
            dodged: true,
            damage: 0,
            critical: false,
        }),
        attack_outcome(attacker, defender, dodge_roll, crit_roll) == attack_outcome(
            other_attacker,
            defender,
            dodge_roll,
            other_crit_roll,
        ),
{
}

/// A blow that is not dodged does twice the attack when the critical roll does
/// not exceed the attacker's critical chance, and the attack otherwise.
pub proof fn lemma_landed_blow(attacker: Stats, defender: Stats, dodge_roll: int, crit_roll: int)
    requires
        dodge_roll > defender.speed,
        damage_fits(attacker, crit_roll),
    ensures
        !attack_outcome(attacker, defender, dodge_roll, crit_roll).dodged,
        crit_roll <= attacker.critical_chance ==> {
            &&& attack_outcome(attacker, defender, dodge_roll, crit_roll).critical
            &&& attack_outcome(attacker, defender, dodge_roll, crit_roll).damage == 2
                * attacker.attack
        },
        crit_roll > attacker.critical_chance ==> {
            &&& !attack_outcome(attacker, defender, dodge_roll, crit_roll).critical
            &&& attack_outcome(attacker, defender, dodge_roll, crit_roll).damage
                == attacker.attack
        },
{
}

/// A step is clamped to the grid: from a cell of the grid it leads to a cell of
/// the grid, which is the next cell in the direction of the step or, at the
/// edge, the cell itself. No coordinate wraps around or falls below zero.
pub proof fn lemma_step_clamped(cell: Position, direction: Direction, width: usize, height: usize)
    requires
        cell.x < width,
        cell.y < height,
    ensures
        step_cell(cell, direction, width, height).x < width,
        step_cell(cell, direction, width, height).y < height,
        step_cell(cell, direction, width, height) == match direction {
            Direction::North => Position {
                x: cell.x,
                y: if cell.y == 0 { 0 } else { (cell.y - 1) as usize },
            },
            Direction::South => Position {
                x: cell.x,
                y: if cell.y == height - 1 { cell.y } else { (cell.y + 1) as usize },
            },
            Direction::West => Position {
                x: if cell.x == 0 { 0 } else { (cell.x - 1) as usize },
                y: cell.y,
            },
            Direction::East => Position {
                x: if cell.x == width - 1 { cell.x } else { (cell.x + 1) as usize },
                y: cell.y,
            },
        },
{
}

/// In a well-formed game the player stands on a cell of the current map, and a
/// move in any direction aims at a cell of that map.
pub proof fn lemma_player_stays_on_grid(game: GameView, direction: Direction)
    requires
        game.wf(),
        game.player is Some,
    ensures
        game.map().in_bounds(game.player->0.position),
        game.map().in_bounds(game.move_target(direction)),
        game.after_move(direction).map().in_bounds(game.after_move(direction).player->0.position),
{
    let map = game.map();
    lemma_step_clamped(game.player->0.position, direction, map.width, map.height);
    lemma_move_wf(game, direction);
}

/// A move onto a cell with a connection crosses the connection, whatever stands
/// on the cell: the map that the connection leads to becomes the current one,
/// the player stands on the cell of arrival, the game is in `MapTransition`, no
/// fight begins and the maps are what they were. An enemy on the cell is passed
/// by, and is not beaten. In a well-formed game the cells with a connection are
/// the connection tiles, and a move onto any other cell crosses nothing.
pub proof fn lemma_connection_crossed(game: GameView, direction: Direction)
    requires
        game.wf(),
        game.can_move(direction),
    ensures
        game.map().tile(game.move_target(direction)) == Tile::Connection
            <==> game.map().destination(game.move_target(direction)) is Some,
        game.map().destination(game.move_target(direction)) matches Some(destination) ==> {
            let after = game.after_move(direction);
            &&& after.state == GameState::MapTransition
            &&& after.world.current_map_index == destination.0
            &&& after.player is Some
            &&& after.player->0.position == destination.1
            &&& after.player->0.class == game.player->0.class
            &&& after.combat is None
            &&& after.world.maps == game.world.maps
            &&& after.defeated == game.defeated
            &&& game.enemy_stands(game.move_target(direction)) ==> after.collected
                == game.collected && after.player->0.stats == game.player->0.stats
        },
        game.map().destination(game.move_target(direction)) is None ==> {
            let after = game.after_move(direction);
            &&& after.state != GameState::MapTransition
            &&& after.world == game.world
            &&& after.player->0.position == game.move_target(direction)
        },
{
    let map = game.map();
    let target = game.move_target(direction);
    if occupied(map.connections, target) {
        lemma_occupied_has_first(map.connections, target);
    }
}

/// A move onto a cell without a connection on which an enemy stands begins a
/// fight against that enemy, with both counters at the full hit points of their
/// side, and leaves the item of the cell, if there is one, where it is.
pub proof fn lemma_enemy_met(game: GameView, direction: Direction)
    requires
        game.wf(),
        game.can_move(direction),
        game.meets_enemy(game.move_target(direction)),
    ensures
        ({
            let after = game.after_move(direction);
            let kind = entry_at(game.enemies, game.move_target(direction))->0;
            &&& after.state == GameState::Combat
            &&& after.combat == Some(
                CombatState::opening(
                    game.player->0.stats,
                    CurrentEnemy {
                        position: game.move_target(direction),
                        enemy_type: kind,
                        stats: enemy_stats(kind),
                    },
                ),
            )
            &&& after.player == Some(
                Player { position: game.move_target(direction), ..game.player->0 },
            )
            &&& after.world == game.world
            &&& after.collected == game.collected
            &&& after.items == game.items
        }),
{
}

/// The enemy comes before the item: a move onto a cell on which an enemy stands
/// picks up nothing, whether the move begins a fight or crosses a connection.
/// The player's statistics and the progress tracker are what they were, and
/// where a fight begins the items on the map are, too.
pub proof fn lemma_item_left_beside_enemy(game: GameView, direction: Direction)
    requires
        game.wf(),
        game.can_move(direction),
        game.enemy_stands(game.move_target(direction)),
    ensures
        game.after_move(direction).collected == game.collected,
        game.after_move(direction).defeated == game.defeated,
        game.after_move(direction).player->0.stats == game.player->0.stats,
        game.after_move(direction).state == GameState::Combat ==> game.after_move(
            direction,
        ).items == game.items,
        game.move_events(direction).len() <= 1,
        forall|i: int|
            0 <= i < game.move_events(direction).len() ==> game.move_events(direction)[i]
                is Encounter,
{
}

/// Picking up an item records its cell: after a move onto a cell with an item
/// and without an enemy, the cell is among the collected ones of the map on
/// which the item lay, and the player has the bonus of the item.
pub proof fn lemma_pickup_recorded(game: GameView, direction: Direction)
    requires
        game.wf(),
        game.can_move(direction),
        !game.enemy_stands(game.move_target(direction)),
        entry_at(game.items, game.move_target(direction)) is Some,
    ensures
        game.after_move(direction).collected.contains(
            (game.world.current_map_index, game.move_target(direction)),
        ),
        game.after_move(direction).player->0.stats == game.player->0.stats.gained(
            item_stats(entry_at(game.items, game.move_target(direction))->0),
        ),
{
}

/// A victory records the cell of the beaten enemy: after the choice of a reward,
/// the cell is among the defeated ones of the current map.
pub proof fn lemma_victory_recorded(game: GameView, choice: RewardChoice)
    requires
        game.wf(),
        game.awaits_reward(),
    ensures
        game.after_reward_choice(choice).state == GameState::Roaming,
        game.after_reward_choice(choice).defeated.contains(
            (game.world.current_map_index, game.combat->0.enemy.position),
        ),
        game.after_reward_choice(choice).player->0.stats == game.player->0.stats.gained(
            reward_stats(choice),
        ),
{
}

/// Picking up an item takes that item from the map and leaves every other item
/// and every enemy where it is.
pub proof fn lemma_item_taken(game: GameView)
    requires
        game.wf(),
        game.player is Some,
        occupied(game.items, game.player->0.position),
    ensures
        game.picked_up().items == game.items.remove(
            first_at(game.items, game.player->0.position),
        ),
        game.picked_up().enemies == game.enemies,
{
    let cell = game.player->0.position;
    lemma_occupied_has_first(game.items, cell);
    lemma_live_without(
        game.map().items,
        game.world.current_map_index,
        game.collected,
        first_at(game.items, cell),
    );
}

/// The choice of a reward takes the beaten enemy from the map and leaves every
/// other enemy and every item where it is.
pub proof fn lemma_enemy_taken(game: GameView, choice: RewardChoice)
    requires
        game.wf(),
        game.awaits_reward(),
    ensures
        game.after_reward_choice(choice).enemies == game.enemies.remove(
            first_at(game.enemies, game.combat->0.enemy.position),
        ),
        game.after_reward_choice(choice).items == game.items,
{
    let cell = game.combat->0.enemy.position;
    lemma_occupied_has_first(game.enemies, cell);
    lemma_live_without(
        game.map().enemies,
        game.world.current_map_index,
        game.defeated,
        first_at(game.enemies, cell),
    );
}

/// The maps never change, and another map becomes the current one only when the
/// player crosses a connection or restarts.
pub proof fn lemma_world_is_fixed(game: GameView, action: Action)
    ensures
        game.after(action).world.maps == game.world.maps,
        game.after(action).world.current_map_index != game.world.current_map_index ==> {
            ||| game.after(action).state == GameState::MapTransition
            ||| game.after(action).state == GameState::ClassSelection
        },
        game.after(action).state == GameState::MapTransition && game.state
            != GameState::MapTransition ==> action is Move,
{
}

/// A fight changes neither the player's statistics nor anything outside the
/// combat session: blows lower the counters of the session only.
pub proof fn lemma_attack_spares_stats(game: GameView, rolls: AttackRolls)
    ensures
        game.after_attack(rolls).player == game.player,
        game.after_attack(rolls).state == game.state,
        game.after_attack(rolls).world == game.world,
        game.after_attack(rolls).collected == game.collected,
        game.after_attack(rolls).defeated == game.defeated,
        game.after_attack(rolls).items == game.items,
        game.after_attack(rolls).enemies == game.enemies,
{
}

/// After an attack in the player's turn, the enemy is beaten exactly when its
/// counter is zero or less, and then the player has taken no blow; otherwise
/// the player is beaten exactly when the player's counter is zero or less, and
/// otherwise it is the player's turn again.
pub proof fn lemma_phase_after_attack(game: GameView, rolls: AttackRolls)
    requires
        game.wf(),
        game.in_combat(),
        game.combat->0.phase == CombatPhase::PlayerTurn,
    ensures
        ({
            let before = game.combat->0;
            let after = game.after_attack(rolls).combat->0;
            &&& after.phase == CombatPhase::AwaitingRewardChoice <==> after.enemy_hp <= 0
            &&& after.enemy_hp <= 0 ==> after.player_hp == before.player_hp
            &&& after.phase == CombatPhase::AwaitingRestartChoice <==> after.enemy_hp > 0
                && after.player_hp <= 0
            &&& after.phase == CombatPhase::PlayerTurn <==> after.enemy_hp > 0 && after.player_hp
                > 0
            &&& after.enemy == before.enemy
        }),
{
    lemma_attack_wf(game, rolls);
}

/// No item lies on a cell of the current map that is recorded as collected, and
/// no enemy stands on one that is recorded as defeated.
pub proof fn lemma_recorded_cells_are_empty(game: GameView, cell: Position)
    requires
        game.wf(),
    ensures
        game.collected.contains((game.world.current_map_index, cell)) ==> !occupied(
            game.items,
            cell,
        ),
        game.defeated.contains((game.world.current_map_index, cell)) ==> !occupied(
            game.enemies,
            cell,
        ),
{
    let index = game.world.current_map_index;
    lemma_live_entries(game.map().items, index, game.collected);
    lemma_live_entries(game.map().enemies, index, game.defeated);
}

/// Whether an action is a restart that takes effect: the player had been beaten.
pub open spec fn restarts(game: GameView, action: Action) -> bool {
    action == Action::Restart && game.awaits_restart()
}

/// Whether no restart takes effect in the course of a series of actions.
pub open spec fn without_restart(game: GameView, actions: Seq<Action>) -> bool {
    forall|k: int|
        0 <= k < actions.len() ==> !restarts(game.after_all(actions.take(k)), #[trigger] actions[k])
}

/// The progress tracker changes in three ways only: picking up an item records
/// the cell of the item, the choice of a reward records the cell of the beaten
/// enemy, and a restart empties the tracker.
pub proof fn lemma_progress_by_deeds(game: GameView, action: Action)
    ensures
        ({
            let after = game.after(action);
            let index = game.world.current_map_index;
            &&& after.collected != game.collected ==> {
                ||| restarts(game, action) && after.collected == Set::<(usize, Position)>::empty()
                ||| action matches Action::Move(direction) && game.can_move(direction)
                    && !game.enemy_stands(game.move_target(direction))
                    && entry_at(game.items, game.move_target(direction)) is Some
                    && after.collected == game.collected.insert(
                    (index, game.move_target(direction)),
                )
            }
            &&& after.defeated != game.defeated ==> {
                ||| restarts(game, action) && after.defeated == Set::<(usize, Position)>::empty()
                ||| action is ChooseReward && game.awaits_reward() && after.defeated
                    == game.defeated.insert((index, game.combat->0.enemy.position))
            }
        }),
{
}

/// No action but a restart that takes effect removes anything from the
/// progress tracker.
pub proof fn lemma_progress_kept(game: GameView, action: Action)
    requires
        !restarts(game, action),
    ensures
        game.collected.subset_of(game.after(action).collected),
        game.defeated.subset_of(game.after(action).defeated),
{
    lemma_progress_by_deeds(game, action);
}

/// No series of actions in which no restart takes effect removes anything from
/// the progress tracker.
pub proof fn lemma_progress_kept_through(game: GameView, actions: Seq<Action>)
    requires
        without_restart(game, actions),
    ensures
        game.collected.subset_of(game.after_all(actions).collected),
        game.defeated.subset_of(game.after_all(actions).defeated),
    decreases actions.len(),
{
    if actions.len() > 0 {
        let first = actions.drop_last();
        assert forall|k: int| 0 <= k < first.len() implies !restarts(
            game.after_all(first.take(k)),
            #[trigger] first[k],
        ) by {
            assert(first.take(k) =~= actions.take(k));
        }
        lemma_progress_kept_through(game, first);
        lemma_progress_kept(game.after_all(first), actions.last());
    }
}

/// An item that was collected never lies on its map again, however often the
/// player comes back to the map and whatever else the player does, until a
/// restart: after any series of actions in which no restart takes effect, the
/// cell is still recorded as collected and, whenever its map is the current one,
/// holds no item.
pub proof fn lemma_collected_item_stays_gone(
    game: GameView,
    actions: Seq<Action>,
    map_index: usize,
    cell: Position,
)
    requires
        game.wf(),
        game.collected.contains((map_index, cell)),
        without_restart(game, actions),
    ensures
        game.after_all(actions).collected.contains((map_index, cell)),
        game.after_all(actions).world.current_map_index == map_index ==> !occupied(
            game.after_all(actions).items,
            cell,
        ),
{
    lemma_progress_kept_through(game, actions);
    lemma_actions_wf(game, actions);
    lemma_recorded_cells_are_empty(game.after_all(actions), cell);
}

/// An enemy that was beaten never stands on its map again, whatever the player
/// does, until a restart: after any series of actions in which no restart takes
/// effect, the cell is still recorded as defeated and, whenever its map is the
/// current one, holds no enemy.
pub proof fn lemma_defeated_enemy_stays_gone(
    game: GameView,
    actions: Seq<Action>,
    map_index: usize,
    cell: Position,
)
    requires
        game.wf(),
        game.defeated.contains((map_index, cell)),
        without_restart(game, actions),
    ensures
        game.after_all(actions).defeated.contains((map_index, cell)),
        game.after_all(actions).world.current_map_index == map_index ==> !occupied(
            game.after_all(actions).enemies,
            cell,
        ),
{
    lemma_progress_kept_through(game, actions);
    lemma_actions_wf(game, actions);
    lemma_recorded_cells_are_empty(game.after_all(actions), cell);
}

/// A restart that takes effect empties the progress tracker and makes the first
/// map the current one.
pub proof fn lemma_restart_clears(game: GameView)
    requires
        game.awaits_restart(),
    ensures
        game.after_restart().state == GameState::ClassSelection,
        game.after_restart().collected == Set::<(usize, Position)>::empty(),
        game.after_restart().defeated == Set::<(usize, Position)>::empty(),
        game.after_restart().world.current_map_index == 0,
        game.after_restart().player is None,
{
}

} // verus!
