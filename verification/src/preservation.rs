//! Every action leaves a well-formed game well formed.

use crate::combat::{AttackRolls, CombatPhase};
use crate::enemy::{lemma_enemy_stats_bounded, EnemyType};
use crate::game::{Action, Direction, GameState};
use crate::item::lemma_item_stats_bounded;
use crate::model::GameView;
use crate::placement::{entry_at, first_at, lemma_occupied_has_first, occupied};
use crate::player::{
    lemma_class_stats_bounded, lemma_reward_stats_bounded, PlayerClass, RewardChoice,
};
use crate::progress::{lemma_live_count_shrinks_strictly, lemma_live_entries, live_of};
use crate::stats::Position;
use vstd::prelude::*;

verus! {

/// An occupied cell of the live placements of a map is the cell of a placement of
/// that map which is not recorded yet.
proof fn lemma_live_cell<K>(
    placements: Seq<(Position, K)>,
    map_index: usize,
    done: Set<(usize, Position)>,
    cell: Position,
) -> (i: int)
    requires
        occupied(live_of(placements, map_index, done), cell),
    ensures
        0 <= i < placements.len(),
        placements[i].0 == cell,
        !done.contains((map_index, cell)),
{
    let live = live_of(placements, map_index, done);
    let k = choose|k: int| 0 <= k < live.len() && (#[trigger] live[k]).0 == cell;
    lemma_live_entries(placements, map_index, done);
    assert(live.contains(live[k]));
    choose|i: int| 0 <= i < placements.len() && placements[i] == live[k]
}

/// Choosing a class leaves a game well formed.
pub proof fn lemma_class_selection_wf(game: GameView, class: PlayerClass)
    requires
        game.wf(),
    ensures
        game.after_class_selection(class).wf(),
{
    lemma_class_stats_bounded(class);
}

/// The player's step onto a walkable cell leaves a game well formed.
pub proof fn lemma_step_wf(game: GameView, direction: Direction)
    requires
        game.wf(),
        game.can_move(direction),
    ensures
        game.with_player_at(game.move_target(direction)).wf(),
{
}

/// Opening a fight against a live enemy on the player's cell leaves a game well
/// formed.
pub proof fn lemma_engaged_wf(game: GameView, kind: EnemyType)
    requires
        game.wf(),
        game.state == GameState::Roaming,
        entry_at(game.enemies, game.player->0.position) == Some(kind),
    ensures
        game.engaged(kind).wf(),
{
    lemma_enemy_stats_bounded(kind);
}

/// Picking up what lies on the player's cell leaves a game well formed.
pub proof fn lemma_picked_up_wf(game: GameView)
    requires
        game.wf(),
        game.state == GameState::Roaming,
    ensures
        game.picked_up().wf(),
        game.picked_up().state == GameState::Roaming,
        game.picked_up().world == game.world,
        game.picked_up().player is Some,
        game.picked_up().player->0.position == game.player->0.position,
{
    let cell = game.player->0.position;
    match entry_at(game.items, cell) {
        Some(kind) => {
            let index = game.world.current_map_index;
            let i = lemma_live_cell(game.map().items, index, game.collected, cell);
            lemma_item_stats_bounded(kind);
            lemma_live_count_shrinks_strictly(
                game.world.item_placements(),
                game.collected,
                index,
                i,
                game.world.maps.len() as int,
            );
        },
        None => {},
    }
}

/// Going through the connection of the player's cell leaves a game well formed.
pub proof fn lemma_crossed_wf(game: GameView)
    requires
        game.wf(),
        game.state == GameState::Roaming,
    ensures
        game.crossed().wf(),
{
    let cell = game.player->0.position;
    let connections = game.map().connections;
    if occupied(connections, cell) {
        lemma_occupied_has_first(connections, cell);
        let i = first_at(connections, cell);
        assert(game.world.arrives(
            game.world.maps[game.world.current_map_index as int].connections[i].1,
        ));
    }
}

/// A move leaves a game well formed.
pub proof fn lemma_move_wf(game: GameView, direction: Direction)
    requires
        game.wf(),
    ensures
        game.after_move(direction).wf(),
{
    if game.can_move(direction) {
        let target = game.move_target(direction);
        let there = game.with_player_at(target);
        lemma_step_wf(game, direction);
        if there.meets_enemy(target) {
            lemma_engaged_wf(there, entry_at(there.enemies, target)->0);
        } else if there.enemy_stands(target) {
            lemma_crossed_wf(there);
        } else {
            lemma_picked_up_wf(there);
            lemma_crossed_wf(there.picked_up());
        }
    }
}

/// The tick after a crossing leaves a game well formed.
pub proof fn lemma_map_transition_wf(game: GameView)
    requires
        game.wf(),
    ensures
        game.after_map_transition().wf(),
{
}

/// An attack leaves a game well formed, whatever the rolls.
pub proof fn lemma_attack_wf(game: GameView, rolls: AttackRolls)
    requires
        game.wf(),
    ensures
        game.after_attack(rolls).wf(),
        game.in_combat() && game.combat->0.phase == CombatPhase::PlayerTurn
            ==> game.combat->0.attack_fits(game.player->0.stats, rolls),
{
    if game.in_combat() {
        lemma_enemy_stats_bounded(game.combat->0.enemy.enemy_type);
    }
}

/// The choice of a reward leaves a game well formed.
pub proof fn lemma_reward_choice_wf(game: GameView, choice: RewardChoice)
    requires
        game.wf(),
    ensures
        game.after_reward_choice(choice).wf(),
{
    if game.awaits_reward() {
        let index = game.world.current_map_index;
        let cell = game.combat->0.enemy.position;
        let i = lemma_live_cell(game.map().enemies, index, game.defeated, cell);
        lemma_reward_stats_bounded(choice);
        lemma_live_count_shrinks_strictly(
            game.world.enemy_placements(),
            game.defeated,
            index,
            i,
            game.world.maps.len() as int,
        );
    }
}

/// A restart leaves a game well formed.
pub proof fn lemma_restart_wf(game: GameView)
    requires
        game.wf(),
    ensures
        game.after_restart().wf(),
{
}

/// Every action leaves a game well formed.
pub proof fn lemma_action_wf(game: GameView, action: Action)
    requires
        game.wf(),
    ensures
        game.after(action).wf(),
{
    match action {
        Action::SelectClass(class) => lemma_class_selection_wf(game, class),
        Action::Move(direction) => lemma_move_wf(game, direction),
        Action::FinishTransition => lemma_map_transition_wf(game),
        Action::Attack(rolls) => lemma_attack_wf(game, rolls),
        Action::ChooseReward(choice) => lemma_reward_choice_wf(game, choice),
        Action::Restart => lemma_restart_wf(game),
    }
}

/// Every series of actions leaves a game well formed.
pub proof fn lemma_actions_wf(game: GameView, actions: Seq<Action>)
    requires
        game.wf(),
    ensures
        game.after_all(actions).wf(),
    decreases actions.len(),
{
    if actions.len() > 0 {
        lemma_actions_wf(game, actions.drop_last());
        lemma_action_wf(game.after_all(actions.drop_last()), actions.last());
    }
}

} // verus!
