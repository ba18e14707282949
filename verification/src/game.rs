//! The game state machine: what each action of the player does to a game.
//!
//! A game is in one of four states. It starts in `ClassSelection`; choosing a
//! class puts a player on the first map and the game in `Roaming`. A move may
//! lead into `Combat`, when the player walks into an enemy, or into
//! `MapTransition`, when the player crosses a connection. Combat ends in
//! `Roaming`, after a victory and the choice of a reward, or in `ClassSelection`,
//! after a defeat and a restart. An action that has no meaning in the current
//! state is ignored.

use crate::combat::{AttackRolls, CombatPhase, CombatState};
use crate::enemy::{Enemy, EnemyType};
use crate::item::{get_stats_for_item, item_stats, lemma_item_stats_bounded, ItemType};
use crate::log::{render_events, LogEvent};
use crate::map::{GameData, GameMap, WorldView};
use crate::model::GameView;
use crate::placement::{entry_at, find_at};
use crate::player::{
    get_stats_for_reward, lemma_reward_stats_bounded, Player, PlayerClass, RewardChoice,
};
use crate::preservation::{
    lemma_attack_wf, lemma_class_selection_wf, lemma_crossed_wf, lemma_engaged_wf,
    lemma_map_transition_wf, lemma_move_wf, lemma_picked_up_wf, lemma_restart_wf,
    lemma_reward_choice_wf, lemma_step_wf,
};
use crate::progress::{spawn_live, CollectedItems, DefeatedEnemies};
use crate::stats::Position;
use vstd::prelude::*;

verus! {

/// Where the game stands.
#[derive(Clone, Copy, Debug, PartialEq, Eq, Structural, Hash)]
pub enum GameState {
    /// No player yet: a class is to be chosen.
    ClassSelection,
    /// The player roams the current map.
    Roaming,
    /// The player fights an enemy.
    Combat,
    /// The player has just crossed a connection. The state lasts until
    /// `Game::map_transition` is called, which always leads to `Roaming`: it is
    /// there for whoever draws the game to put away the old map and bring up the
    /// new one.
    MapTransition,
}

/// The four ways to move on a grid.
#[derive(Clone, Copy, Debug, PartialEq, Eq, Structural, Hash)]
pub enum Direction {
    /// One row up: `y` falls by one.
    North,
    /// One row down: `y` rises by one.
    South,
    /// One column to the left: `x` falls by one.
    West,
    /// One column to the right: `x` rises by one.
    East,
}

/// The direction that a key selects, in either case of the letter: `z` north,
/// `s` south, `q` west and `d` east.
pub open spec fn direction_of_key(key: char) -> Option<Direction> {
    if key == 'z' || key == 'Z' {
        Some(Direction::North)
    } else if key == 's' || key == 'S' {
        Some(Direction::South)
    } else if key == 'q' || key == 'Q' {
        Some(Direction::West)
    } else if key == 'd' || key == 'D' {
        Some(Direction::East)
    } else {
        None
    }
}

impl Direction {
    /// The direction in which the player moves with the given key, if the key
    /// moves the player.
    pub fn from_key(key: char) -> (direction: Option<Direction>)
        ensures
            direction == direction_of_key(key),
    {
        if key == 'z' || key == 'Z' {
            Some(Direction::North)
        } else if key == 's' || key == 'S' {
            Some(Direction::South)
        } else if key == 'q' || key == 'Q' {
            Some(Direction::West)
        } else if key == 'd' || key == 'D' {
            Some(Direction::East)
        } else {
            None
        }
    }
}

impl Default for GameState {
    /// The state in which every game begins.
    fn default() -> (state: GameState)
        ensures
            state == GameState::ClassSelection,
    {
        GameState::ClassSelection
    }
}

/// What the player can do. An attack carries the rolls that decide it.
#[derive(Clone, Copy, Debug, PartialEq, Eq, Structural)]
pub enum Action {
    /// Choose the class of the player.
    SelectClass(PlayerClass),
    /// Move one cell in a direction.
    Move(Direction),
    /// Let the tick after the crossing of a connection pass.
    FinishTransition,
    /// Attack the enemy, with these rolls.
    Attack(AttackRolls),
    /// Take a reward after a victory.
    ChooseReward(RewardChoice),
    /// Begin anew after a defeat.
    Restart,
}

/// The cell next to `cell` in the given direction on a grid of the given size,
/// or, at the edge, the cell itself: a step is clamped to the grid.
pub open spec fn step_cell(
    cell: Position,
    direction: Direction,
    width: usize,
    height: usize,
) -> Position {
    match direction {
        Direction::North => Position {
            x: cell.x,
            y: if cell.y >= 1 {
                (cell.y - 1) as usize
            } else {
                0
            },
        },
        Direction::South => Position {
            x: cell.x,
            y: if cell.y + 1 <= height - 1 {
                (cell.y + 1) as usize
            } else {
                (height - 1) as usize
            },
        },
        Direction::West => Position {
            x: if cell.x >= 1 {
                (cell.x - 1) as usize
            } else {
                0
            },
            y: cell.y,
        },
        Direction::East => Position {
            x: if cell.x + 1 <= width - 1 {
                (cell.x + 1) as usize
            } else {
                (width - 1) as usize
            },
            y: cell.y,
        },
    }
}

/// The cell that a step from `cell` in the given direction leads to.
pub fn neighbour(cell: Position, direction: Direction, width: usize, height: usize) -> (target:
    Position)
    requires
        width >= 1,
        height >= 1,
    ensures
        target == step_cell(cell, direction, width, height),
        cell.x < width ==> target.x < width,
        cell.y < height ==> target.y < height,
{
    match direction {
        Direction::North => Position {
            x: cell.x,
            y: if cell.y >= 1 {
                cell.y - 1
            } else {
                0
            },
        },
        Direction::South => Position {
            x: cell.x,
            y: if cell.y < height - 1 {
                cell.y + 1
            } else {
                height - 1
            },
        },
        Direction::West => Position {
            x: if cell.x >= 1 {
                cell.x - 1
            } else {
                0
            },
            y: cell.y,
        },
        Direction::East => Position {
            x: if cell.x < width - 1 {
                cell.x + 1
            } else {
                width - 1
            },
            y: cell.y,
        },
    }
}

/// Whether the lines are those of the events, one line for each event, in order.
pub open spec fn tells(lines: Seq<String>, events: Seq<LogEvent>) -> bool {
    &&& lines.len() == events.len()
    &&& forall|i: int| 0 <= i < events.len() ==> (#[trigger] lines[i])@ == events[i].text()
}

/// What an action comes to: the state of the game after it, the events that it
/// gave rise to, and the lines that tell the player of them.
pub struct ActionOutcome {
    pub state: GameState,
    pub events: Vec<LogEvent>,
    pub log: Vec<String>,
}

impl ActionOutcome {
    /// Whether the outcome holds exactly the given events, and the line of each.
    pub open spec fn reports(self, events: Seq<LogEvent>) -> bool {
        self.events@ == events && tells(self.log@, events)
    }
}

/// What is to be seen of the current map: the map itself, and the items and
/// enemies that are on it now.
pub struct MapSnapshot<'a> {
    pub map: &'a GameMap,
    pub items: &'a Vec<(Position, ItemType)>,
    pub enemies: &'a Vec<(Position, EnemyType)>,
}

/// One game: the world, the progress of the player through it, the player, what
/// is on the current map, and the combat session while there is one.
pub struct Game {
    state: GameState,
    data: GameData,
    collected_items: CollectedItems,
    defeated_enemies: DefeatedEnemies,
    player: Option<Player>,
    items: Vec<(Position, ItemType)>,
    enemies: Vec<(Position, EnemyType)>,
    combat: Option<CombatState>,
}

impl View for Game {
    type V = GameView;

    closed spec fn view(&self) -> GameView {
        GameView {
            state: self.state,
            world: self.data@,
            collected: self.collected_items.items@,
            defeated: self.defeated_enemies.enemies@,
            player: self.player,
            items: self.items@,
            enemies: self.enemies@,
            combat: self.combat,
        }
    }
}

impl Game {
    /// Whether the game is well formed: see `GameView::wf`. Every game that this
    /// module hands out is, and every action keeps it so.
    pub open spec fn wf(&self) -> bool {
        self@.wf()
    }

    /// The game at its beginning in the given world: in `ClassSelection`, on the
    /// first map, with no player and no progress.
    pub open spec fn initial(world: WorldView) -> GameView {
        GameView {
            state: GameState::ClassSelection,
            world: WorldView { current_map_index: 0, ..world },
            collected: Set::empty(),
            defeated: Set::empty(),
            player: None,
            items: Seq::empty(),
            enemies: Seq::empty(),
            combat: None,
        }.spawned()
    }

    /// Begins a game in the given world.
    pub fn new(data: GameData) -> (game: Game)
        ensures
            game.wf(),
            game@ == Self::initial(data@),
    {
        let mut data = data;
        proof {
            use_type_invariant(&data);
        }
        data.enter_map(0);
        let mut game = Game {
            state: GameState::ClassSelection,
            data,
            collected_items: CollectedItems::new(),
            defeated_enemies: DefeatedEnemies::new(),
            player: None,
            items: Vec::new(),
            enemies: Vec::new(),
            combat: None,
        };
        game.spawn_map();
        game
    }

    /// Brings up the items and enemies of the current map: those placed there
    /// that the progress tracker does not hold.
    fn spawn_map(&mut self)
        ensures
            final(self)@ == old(self)@.spawned(),
    {
        let index = self.data.current_map_index();
        let map = self.data.get_current_map();
        self.items = spawn_live(map.items(), index, &self.collected_items.items);
        self.enemies = spawn_live(map.enemies(), index, &self.defeated_enemies.enemies);
    }

    /// The outcome of an action with the given events.
    fn outcome(&self, events: Vec<LogEvent>) -> (outcome: ActionOutcome)
        ensures
            outcome.state == self@.state,
            outcome.reports(events@),
    {
        let log = render_events(&events);
        ActionOutcome { state: self.state, events, log }
    }

    /// Chooses the class of the player: see `GameView::after_class_selection`.
    pub fn apply_class_selection(&mut self, class: PlayerClass) -> (outcome: ActionOutcome)
        requires
            old(self).wf(),
        ensures
            final(self).wf(),
            final(self)@ == old(self)@.after_class_selection(class),
            outcome.state == final(self)@.state,
            outcome.reports(Seq::empty()),
    {
        proof {
            lemma_class_selection_wf(self@, class);
        }
        if self.state == GameState::ClassSelection {
            self.spawn_player(class);
        }
        let events: Vec<LogEvent> = Vec::new();
        self.outcome(events)
    }

    /// Puts a new player of the given class on the starting cell of the current
    /// map.
    fn spawn_player(&mut self, class: PlayerClass)
        requires
            old(self).wf(),
            old(self)@.state == GameState::ClassSelection,
        ensures
            final(self)@ == old(self)@.after_class_selection(class),
    {
        let start = self.data.get_current_map().player_start();
        self.player = Some(Player::new(class, start));
        self.state = GameState::Roaming;
        self.spawn_map();
    }

    /// Moves the player one cell in the given direction: see
    /// `GameView::after_move`.
    pub fn apply_move(&mut self, direction: Direction) -> (outcome: ActionOutcome)
        requires
            old(self).wf(),
        ensures
            final(self).wf(),
            final(self)@ == old(self)@.after_move(direction),
            outcome.state == final(self)@.state,
            outcome.reports(old(self)@.move_events(direction)),
    {
        let mut events: Vec<LogEvent> = Vec::new();
        proof {
            lemma_move_wf(self@, direction);
        }
        if self.move_player(direction) {
            if self.enemy_stands() {
                if !self.check_enemy_encounter(&mut events) {
                    self.cross_connection();
                }
            } else {
                self.check_item_pickup(&mut events);
                self.cross_connection();
            }
        }
        self.outcome(events)
    }

    /// Puts the player on the cell that a move in the given direction aims at, if
    /// the game is in `Roaming` and the cell can be walked on. Returns whether it
    /// did.
    fn move_player(&mut self, direction: Direction) -> (moved: bool)
        requires
            old(self).wf(),
        ensures
            moved == old(self)@.can_move(direction),
            moved ==> final(self)@ == old(self)@.with_player_at(
                old(self)@.move_target(direction),
            ),
            moved ==> final(self).wf(),
            !moved ==> final(self)@ == old(self)@,
    {
        if self.state != GameState::Roaming {
            return false;
        }
        let player = self.player.unwrap();
        let map = self.data.get_current_map();
        proof {
            use_type_invariant(map);
        }
        let target = neighbour(player.position, direction, map.width(), map.height());
        if !map.is_walkable(target.x, target.y) {
            return false;
        }
        proof {
            lemma_step_wf(self@, direction);
        }
        self.player = Some(Player { class: player.class, stats: player.stats, position: target });
        true
    }

    /// Whether an enemy stands on the player's cell.
    fn enemy_stands(&self) -> (stands: bool)
        requires
            self@.player is Some,
        ensures
            stands == self@.enemy_stands(self@.player->0.position),
    {
        find_at(&self.enemies, self.player.unwrap().position).is_some()
    }

    /// Opens a fight if an enemy stands on the player's cell and the cell has no
    /// connection. Returns whether it did.
    fn check_enemy_encounter(&mut self, events: &mut Vec<LogEvent>) -> (met: bool)
        requires
            old(self).wf(),
            old(self)@.state == GameState::Roaming,
        ensures
            final(self).wf(),
            met == old(self)@.meets_enemy(old(self)@.player->0.position),
            met ==> final(self)@ == old(self)@.engaged(
                entry_at(old(self)@.enemies, old(self)@.player->0.position)->0,
            ) && final(events)@ == old(events)@.push(
                LogEvent::Encounter(
                    entry_at(old(self)@.enemies, old(self)@.player->0.position)->0,
                ),
            ),
            !met ==> final(self)@ == old(self)@ && final(events)@ == old(events)@,
    {
        let player = self.player.unwrap();
        if self.data.get_current_map().destination(player.position).is_some() {
            return false;
        }
        match find_at(&self.enemies, player.position) {
            Some(i) => {
                let kind = self.enemies[i].1;
                proof {
                    lemma_engaged_wf(self@, kind);
                }
                let enemy = Enemy::new(kind);
                self.combat = Some(
                    CombatState::start_combat(&player.stats, player.position, &enemy),
                );
                self.state = GameState::Combat;
                events.push(LogEvent::Encounter(kind));
                true
            },
            None => false,
        }
    }

    /// Picks up the item that lies on the player's cell, if one does.
    fn check_item_pickup(&mut self, events: &mut Vec<LogEvent>)
        requires
            old(self).wf(),
            old(self)@.state == GameState::Roaming,
        ensures
            final(self).wf(),
            final(self)@ == old(self)@.picked_up(),
            final(events)@ == old(events)@ + (match entry_at(
                old(self)@.items,
                old(self)@.player->0.position,
            ) {
                Some(kind) => seq![
                    LogEvent::ItemFound(kind),
                    LogEvent::StatsGained(item_stats(kind)),
                ],
                None => Seq::empty(),
            }),
    {
        let mut player = self.player.unwrap();
        proof {
            lemma_picked_up_wf(self@);
        }
        match find_at(&self.items, player.position) {
            Some(i) => {
                let kind = self.items[i].1;
                let bonus = get_stats_for_item(kind);
                proof {
                    lemma_item_stats_bounded(kind);
                }
                events.push(LogEvent::ItemFound(kind));
                events.push(LogEvent::StatsGained(bonus));
                player.apply_item_stats(&bonus);
                self.player = Some(player);
                self.collected_items.items.insert((self.data.current_map_index(), player.position));
                self.spawn_map();
                assert(final(events)@ =~= old(events)@ + seq![
                    LogEvent::ItemFound(kind),
                    LogEvent::StatsGained(item_stats(kind)),
                ]);
            },
            None => {},
        }
    }

    /// Takes the player through the connection of the player's cell, if the cell
    /// has one.
    fn cross_connection(&mut self)
        requires
            old(self).wf(),
            old(self)@.state == GameState::Roaming,
        ensures
            final(self).wf(),
            final(self)@ == old(self)@.crossed(),
    {
        let player = self.player.unwrap();
        proof {
            lemma_crossed_wf(self@);
        }
        match self.data.get_current_map().destination(player.position) {
            Some(destination) => {
                self.data.enter_map(destination.0);
                self.player = Some(
                    Player { class: player.class, stats: player.stats, position: destination.1 },
                );
                self.state = GameState::MapTransition;
                self.spawn_map();
            },
            None => {},
        }
    }

    /// The tick after the crossing of a connection: see
    /// `GameView::after_map_transition`.
    pub fn map_transition(&mut self) -> (state: GameState)
        requires
            old(self).wf(),
        ensures
            final(self).wf(),
            final(self)@ == old(self)@.after_map_transition(),
            state == final(self)@.state,
    {
        proof {
            lemma_map_transition_wf(self@);
        }
        if self.state == GameState::MapTransition {
            self.state = GameState::Roaming;
            self.spawn_map();
        }
        self.state
    }

    /// Carries out an attack with the rolls given by the caller: see
    /// `GameView::after_attack`.
    pub fn apply_attack_with(&mut self, rolls: AttackRolls) -> (outcome: ActionOutcome)
        requires
            old(self).wf(),
        ensures
            final(self).wf(),
            final(self)@ == old(self)@.after_attack(rolls),
            outcome.state == final(self)@.state,
            outcome.reports(old(self)@.attack_events(rolls)),
    {
        proof {
            lemma_attack_wf(self@, rolls);
        }
        let events = if self.state == GameState::Combat {
            let player = self.player.unwrap();
            let mut combat = self.combat.unwrap();
            let events = combat.attack_with(&player.stats, rolls);
            self.combat = Some(combat);
            events
        } else {
            Vec::new()
        };
        self.outcome(events)
    }

    /// Carries out an attack with rolls drawn from the random generator.
    ///
    /// Which rolls come up is not known beforehand; what happens is what
    /// `GameView::after_attack` and `GameView::attack_events` say for some four
    /// rolls between 1 and 100.
    pub fn apply_attack(&mut self) -> (outcome: ActionOutcome)
        requires
            old(self).wf(),
        ensures
            final(self).wf(),
            outcome.state == final(self)@.state,
            exists|rolls: AttackRolls|
                rolls.valid() && final(self)@ == #[trigger] old(self)@.after_attack(rolls)
                    && outcome.reports(old(self)@.attack_events(rolls)),
    {
        if self.state == GameState::Combat {
            let player = self.player.unwrap();
            let mut combat = self.combat.unwrap();
            proof {
                if combat.phase == CombatPhase::PlayerTurn {
                    assert forall|rolls: AttackRolls| rolls.valid() implies #[trigger]
                        combat.attack_fits(player.stats, rolls) by {
                        lemma_attack_wf(self@, rolls);
                    }
                }
            }
            let events = combat.attack(&player.stats);
            self.combat = Some(combat);
            let outcome = self.outcome(events);
            proof {
                let rolls = choose|rolls: AttackRolls|
                    rolls.valid() && combat == #[trigger] old(self)@.combat->0.after_attack(
                        player.stats,
                        rolls,
                    ) && events@ == old(self)@.combat->0.attack_events(player.stats, rolls);
                lemma_attack_wf(old(self)@, rolls);
            }
            outcome
        } else {
            let events: Vec<LogEvent> = Vec::new();
            let outcome = self.outcome(events);
            proof {
                let rolls = AttackRolls {
                    enemy_dodge: 1,
                    player_crit: 1,
                    player_dodge: 1,
                    enemy_crit: 1,
                };
                assert(final(self)@ == old(self)@.after_attack(rolls));
            }
            outcome
        }
    }

    /// Takes the reward that the player chose after a victory: see
    /// `GameView::after_reward_choice`.
    pub fn apply_reward_choice(&mut self, choice: RewardChoice) -> (outcome: ActionOutcome)
        requires
            old(self).wf(),
        ensures
            final(self).wf(),
            final(self)@ == old(self)@.after_reward_choice(choice),
            outcome.state == final(self)@.state,
            outcome.reports(old(self)@.reward_events(choice)),
    {
        let mut events: Vec<LogEvent> = Vec::new();
        proof {
            lemma_reward_choice_wf(self@, choice);
        }
        if self.state == GameState::Combat {
            let combat = self.combat.unwrap();
            if combat.phase == CombatPhase::AwaitingRewardChoice {
                let mut player = self.player.unwrap();
                let bonus = get_stats_for_reward(choice);
                proof {
                    lemma_reward_stats_bounded(choice);
                }
                player.apply_item_stats(&bonus);
                self.player = Some(player);
                self.defeated_enemies.enemies.insert(
                    (self.data.current_map_index(), combat.enemy.position),
                );
                self.combat = None;
                self.state = GameState::Roaming;
                self.spawn_map();
                events.push(LogEvent::RewardGained(choice));
                events.push(LogEvent::EnemyDefeated(combat.enemy.enemy_type));
            }
        }
        assert(events@ =~= old(self)@.reward_events(choice));
        self.outcome(events)
    }

    /// Begins the game anew after a defeat: see `GameView::after_restart`.
    pub fn apply_restart(&mut self) -> (outcome: ActionOutcome)
        requires
            old(self).wf(),
        ensures
            final(self).wf(),
            final(self)@ == old(self)@.after_restart(),
            outcome.state == final(self)@.state,
            outcome.reports(Seq::empty()),
    {
        proof {
            lemma_restart_wf(self@);
        }
        if self.state == GameState::Combat {
            let combat = self.combat.unwrap();
            if combat.phase == CombatPhase::AwaitingRestartChoice {
                self.reset_game_state();
            }
        }
        let events: Vec<LogEvent> = Vec::new();
        self.outcome(events)
    }

    /// Puts the game back to its beginning: no player, no progress, the first
    /// map, and a class to be chosen.
    fn reset_game_state(&mut self)
        ensures
            final(self)@ == (GameView {
                state: GameState::ClassSelection,
                world: WorldView { current_map_index: 0, ..old(self)@.world },
                collected: Set::empty(),
                defeated: Set::empty(),
                player: None,
                combat: None,
                ..old(self)@
            }).spawned(),
    {
        proof {
            use_type_invariant(&self.data);
        }
        self.player = None;
        self.combat = None;
        self.data.enter_map(0);
        self.collected_items.items.clear();
        self.defeated_enemies.enemies.clear();
        self.state = GameState::ClassSelection;
        self.spawn_map();
    }

    /// Carries out an action: see `GameView::after`.
    pub fn apply(&mut self, action: Action) -> (outcome: ActionOutcome)
        requires
            old(self).wf(),
        ensures
            final(self).wf(),
            final(self)@ == old(self)@.after(action),
            outcome.state == final(self)@.state,
            outcome.reports(old(self)@.events_of(action)),
    {
        match action {
            Action::SelectClass(class) => self.apply_class_selection(class),
            Action::Move(direction) => self.apply_move(direction),
            Action::FinishTransition => {
                let state = self.map_transition();
                ActionOutcome { state, events: Vec::new(), log: Vec::new() }
            },
            Action::Attack(rolls) => self.apply_attack_with(rolls),
            Action::ChooseReward(choice) => self.apply_reward_choice(choice),
            Action::Restart => self.apply_restart(),
        }
    }

    /// The state of the game.
    pub fn current_state(&self) -> (state: GameState)
        ensures
            state == self@.state,
    {
        self.state
    }

    /// The current map, and the items and enemies that are on it now.
    pub fn current_map_snapshot(&self) -> (snapshot: MapSnapshot<'_>)
        ensures
            snapshot.map@ == self@.map(),
            snapshot.items@ == self@.items,
            snapshot.enemies@ == self@.enemies,
    {
        MapSnapshot { map: self.data.get_current_map(), items: &self.items, enemies: &self.enemies }
    }

    /// The player, once a class is chosen.
    pub fn player_snapshot(&self) -> (player: Option<Player>)
        ensures
            player == self@.player,
    {
        self.player
    }

    /// The combat session, while the player fights.
    pub fn combat_snapshot(&self) -> (combat: Option<CombatState>)
        ensures
            combat == self@.combat,
    {
        self.combat
    }

    /// The world catalog.
    pub fn data(&self) -> (data: &GameData)
        ensures
            data@ == self@.world,
    {
        &self.data
    }

    /// The items that the player has collected.
    pub fn collected_items(&self) -> (collected: &CollectedItems)
        ensures
            collected.items@ == self@.collected,
    {
        &self.collected_items
    }

    /// The enemies that the player has beaten.
    pub fn defeated_enemies(&self) -> (defeated: &DefeatedEnemies)
        ensures
            defeated.enemies@ == self@.defeated,
    {
        &self.defeated_enemies
    }
}

} // verus!
