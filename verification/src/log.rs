//! What happened during an action, as events and as the lines shown to the
//! player, and the bounded history of such lines.

use crate::enemy::{enemy_name, EnemyType};
use crate::item::{item_name, ItemType};
use crate::player::{class_name, get_class_name, Player, PlayerClass, RewardChoice};
use crate::stats::Stats;
use vstd::prelude::*;
use vstd::string::StringExecFns;

verus! {

/// One thing that happened while an action was carried out.
#[derive(Clone, Copy, Debug, PartialEq, Eq, Structural)]
pub enum LogEvent {
    /// The player picked up an item of this kind.
    ItemFound(ItemType),
    /// The player's statistics rose by this bonus.
    StatsGained(Stats),
    /// The player walked into an enemy of this archetype: combat begins.
    Encounter(EnemyType),
    /// The enemy dodged the player's blow.
    EnemyDodged,
    /// The player's blow landed for this damage.
    PlayerHit(i32),
    /// The player's blow landed critically, for this damage.
    PlayerCritical(i32),
    /// The enemy's hit points are spent: the player has won.
    Victory,
    /// The player dodged the enemy's blow.
    PlayerDodged,
    /// The enemy's blow landed for this damage.
    EnemyHit(i32),
    /// The enemy's blow landed critically, for this damage.
    EnemyCritical(i32),
    /// The player's hit points are spent: the player has lost.
    Defeat,
    /// The player took this reward.
    RewardGained(RewardChoice),
    /// The enemy of this archetype is beaten for good.
    EnemyDefeated(EnemyType),
}

/// The character of one decimal digit.
pub open spec fn digit_char(digit: int) -> char {
    if digit == 0 {
        '0'
    } else if digit == 1 {
        '1'
    } else if digit == 2 {
        '2'
    } else if digit == 3 {
        '3'
    } else if digit == 4 {
        '4'
    } else if digit == 5 {
        '5'
    } else if digit == 6 {
        '6'
    } else if digit == 7 {
        '7'
    } else if digit == 8 {
        '8'
    } else {
        '9'
    }
}

/// The decimal digits of a natural number, most significant first, without
/// leading zeros.
pub open spec fn decimal_digits(n: nat) -> Seq<char>
    decreases n,
{
    if n < 10 {
        seq![digit_char(n as int)]
    } else {
        decimal_digits(n / 10).push(digit_char((n % 10) as int))
    }
}

/// The decimal notation of an integer, with a minus sign before a negative one.
pub open spec fn decimal(n: int) -> Seq<char> {
    if n < 0 {
        seq!['-'] + decimal_digits((-n) as nat)
    } else {
        decimal_digits(n as nat)
    }
}

/// One part of a line that lists gains: label, amount and suffix when the amount
/// is positive, nothing otherwise.
pub open spec fn gain_part(label: Seq<char>, amount: int, suffix: Seq<char>) -> Seq<char> {
    if amount > 0 {
        label + decimal(amount) + suffix
    } else {
        Seq::empty()
    }
}

/// A line with one more part: parts that are not empty are separated by a comma
/// and a space.
pub open spec fn joined(line: Seq<char>, part: Seq<char>) -> Seq<char> {
    if part.len() == 0 {
        line
    } else if line.len() == 0 {
        part
    } else {
        line + ", "@ + part
    }
}

/// The line that lists the positive fields of a bonus, such as `HP +50` or
/// `ATK +2, CRIT +15%`.
pub open spec fn gains_text(bonus: Stats) -> Seq<char> {
    joined(
        joined(
            joined(
                joined(Seq::empty(), gain_part("HP +"@, bonus.hp as int, ""@)),
                gain_part("ATK +"@, bonus.attack as int, ""@),
            ),
            gain_part("SPD +"@, bonus.speed as int, ""@),
        ),
        gain_part("CRIT +"@, bonus.critical_chance as int, "%"@),
    )
}

/// The line that announces a reward.
pub open spec fn reward_text(choice: RewardChoice) -> Seq<char> {
    match choice {
        RewardChoice::Hp => "HP +10 !"@,
        RewardChoice::Attack => "ATK +2 !"@,
        RewardChoice::Speed => "SPD +1 !"@,
        RewardChoice::CriticalChance => "CRIT +2% !"@,
    }
}

impl LogEvent {
    /// The line that tells the player of the event.
    pub open spec fn text(self) -> Seq<char> {
        match self {
            LogEvent::ItemFound(kind) => "Objet ramassé : "@ + item_name(kind),
            LogEvent::StatsGained(bonus) => gains_text(bonus),
            LogEvent::Encounter(kind) => "Combat contre "@ + enemy_name(kind) + " !"@,
            LogEvent::EnemyDodged => "Esquive ennemi"@,
            LogEvent::PlayerHit(damage) => "Atk "@ + decimal(damage as int) + " dmg"@,
            LogEvent::PlayerCritical(damage) => "CRIT "@ + decimal(damage as int) + " dmg"@,
            LogEvent::Victory => "VICTOIRE !"@,
            LogEvent::PlayerDodged => "Esquive joueur"@,
            LogEvent::EnemyHit(damage) => "Ennemi "@ + decimal(damage as int) + " dmg"@,
            LogEvent::EnemyCritical(damage) => "Ennemi CRIT "@ + decimal(damage as int) + " dmg"@,
            LogEvent::Defeat => "DEFAITE"@,
            LogEvent::RewardGained(choice) => reward_text(choice),
            LogEvent::EnemyDefeated(kind) => enemy_name(kind) + " vaincu !"@,
        }
    }

    /// Writes the line that tells the player of the event.
    pub fn message(&self) -> (line: String)
        ensures
            line@ == self.text(),
    {
        match self {
            LogEvent::ItemFound(kind) => {
                let mut line = String::from_str("Objet ramassé : ");
                line.append(kind.get_name());
                line
            },
            LogEvent::StatsGained(bonus) => gains_message(bonus),
            LogEvent::Encounter(kind) => {
                let mut line = String::from_str("Combat contre ");
                line.append(kind.get_name());
                line.append(" !");
                line
            },
            LogEvent::EnemyDodged => String::from_str("Esquive ennemi"),
            LogEvent::PlayerHit(damage) => damage_message("Atk ", *damage),
            LogEvent::PlayerCritical(damage) => damage_message("CRIT ", *damage),
            LogEvent::Victory => String::from_str("VICTOIRE !"),
            LogEvent::PlayerDodged => String::from_str("Esquive joueur"),
            LogEvent::EnemyHit(damage) => damage_message("Ennemi ", *damage),
            LogEvent::EnemyCritical(damage) => damage_message("Ennemi CRIT ", *damage),
            LogEvent::Defeat => String::from_str("DEFAITE"),
            LogEvent::RewardGained(choice) => match choice {
                RewardChoice::Hp => String::from_str("HP +10 !"),
                RewardChoice::Attack => String::from_str("ATK +2 !"),
                RewardChoice::Speed => String::from_str("SPD +1 !"),
                RewardChoice::CriticalChance => String::from_str("CRIT +2% !"),
            },
            LogEvent::EnemyDefeated(kind) => {
                let mut line = String::from_str(kind.get_name());
                line.append(" vaincu !");
                line
            },
        }
    }
}

/// The text of one decimal digit.
fn digit_str(digit: u32) -> (text: &'static str)
    requires
        digit < 10,
    ensures
        text@ == seq![digit_char(digit as int)],
{
    proof {
        reveal_strlit("0");
        reveal_strlit("1");
        reveal_strlit("2");
        reveal_strlit("3");
        reveal_strlit("4");
        reveal_strlit("5");
        reveal_strlit("6");
        reveal_strlit("7");
        reveal_strlit("8");
        reveal_strlit("9");
    }
    if digit == 0 {
        "0"
    } else if digit == 1 {
        "1"
    } else if digit == 2 {
        "2"
    } else if digit == 3 {
        "3"
    } else if digit == 4 {
        "4"
    } else if digit == 5 {
        "5"
    } else if digit == 6 {
        "6"
    } else if digit == 7 {
        "7"
    } else if digit == 8 {
        "8"
    } else {
        "9"
    }
}

/// Appends the decimal digits of `n` to a line.
fn push_decimal_digits(line: &mut String, n: u32)
    ensures
        final(line)@ == old(line)@ + decimal_digits(n as nat),
    decreases n,
{
    if n >= 10 {
        push_decimal_digits(line, n / 10);
    }
    line.append(digit_str(n % 10));
}

/// Appends the decimal notation of `n` to a line.
pub fn push_decimal(line: &mut String, n: i32)
    ensures
        final(line)@ == old(line)@ + decimal(n as int),
{
    if n < 0 {
        line.append("-");
        proof {
            reveal_strlit("-");
        }
        let magnitude: u32 = (-(n as i64)) as u32;
        push_decimal_digits(line, magnitude);
    } else {
        push_decimal_digits(line, n as u32);
    }
}

/// The decimal notation of `n`.
pub fn decimal_string(n: i32) -> (text: String)
    ensures
        text@ == decimal(n as int),
{
    let mut text = String::new();
    push_decimal(&mut text, n);
    text
}

/// Writes a line that reports damage: the label, the damage and ` dmg`.
fn damage_message(label: &str, damage: i32) -> (line: String)
    ensures
        line@ == label@ + decimal(damage as int) + " dmg"@,
{
    let mut line = String::from_str(label);
    push_decimal(&mut line, damage);
    line.append(" dmg");
    line
}

/// Adds one part to a line that lists gains.
fn push_gain(line: &mut String, label: &str, amount: i32, suffix: &str)
    ensures
        final(line)@ == joined(old(line)@, gain_part(label@, amount as int, suffix@)),
{
    if amount > 0 {
        if line.as_str().unicode_len() > 0 {
            line.append(", ");
        }
        line.append(label);
        push_decimal(line, amount);
        line.append(suffix);
    }
}

/// Writes the line that lists the positive fields of a bonus.
fn gains_message(bonus: &Stats) -> (line: String)
    ensures
        line@ == gains_text(*bonus),
{
    let mut line = String::new();
    push_gain(&mut line, "HP +", bonus.hp, "");
    push_gain(&mut line, "ATK +", bonus.attack, "");
    push_gain(&mut line, "SPD +", bonus.speed, "");
    push_gain(&mut line, "CRIT +", bonus.critical_chance, "%");
    line
}

/// Writes the line of each event, in order.
pub fn render_events(events: &Vec<LogEvent>) -> (lines: Vec<String>)
    ensures
        lines@.len() == events@.len(),
        forall|i: int| 0 <= i < events@.len() ==> (#[trigger] lines@[i])@ == events@[i].text(),
{
    let mut lines: Vec<String> = Vec::new();
    let mut i: usize = 0;
    while i < events.len()
        invariant
            i <= events@.len(),
            lines@.len() == i,
            forall|j: int| 0 <= j < i ==> (#[trigger] lines@[j])@ == events@[j].text(),
        decreases events@.len() - i,
    {
        lines.push(events[i].message());
        i = i + 1;
    }
    lines
}

/// The text of the panel that shows the player: the class and the four
/// statistics, one to a line.
pub open spec fn player_panel_text(class: PlayerClass, stats: Stats) -> Seq<char> {
    "Classe: "@ + class_name(class) + "\nHP: "@ + decimal(stats.hp as int) + "\nAttaque: "@
        + decimal(stats.attack as int) + "\nVitesse: "@ + decimal(stats.speed as int)
        + "\nCritique: "@ + decimal(stats.critical_chance as int) + "%"@
}

/// Writes the text of the panel that shows the player.
pub fn player_panel(player: &Player) -> (text: String)
    ensures
        text@ == player_panel_text(player.class, player.stats),
{
    let mut text = String::from_str("Classe: ");
    text.append(get_class_name(player.class));
    text.append("\nHP: ");
    push_decimal(&mut text, player.stats.hp);
    text.append("\nAttaque: ");
    push_decimal(&mut text, player.stats.attack);
    text.append("\nVitesse: ");
    push_decimal(&mut text, player.stats.speed);
    text.append("\nCritique: ");
    push_decimal(&mut text, player.stats.critical_chance);
    text.append("%");
    text
}

/// The hit points as shown: the counter, or zero when it is below.
pub open spec fn shown_hp(hp: int) -> int {
    if hp < 0 {
        0
    } else {
        hp
    }
}

/// The text of the panel that shows one side of a fight: the hit points left, as
/// shown, over their maximum, and the other three statistics, one to a line.
pub open spec fn combat_panel_text(hp: int, stats: Stats) -> Seq<char> {
    "Points de vie: "@ + decimal(shown_hp(hp)) + " / "@ + decimal(stats.hp as int)
        + "\nAttaque: "@ + decimal(stats.attack as int) + "\nVitesse: "@ + decimal(
        stats.speed as int,
    ) + "\nCritique: "@ + decimal(stats.critical_chance as int) + "%"@
}

/// Writes the text of the panel that shows one side of a fight.
pub fn combat_panel(hp: i32, stats: &Stats) -> (text: String)
    ensures
        text@ == combat_panel_text(hp as int, *stats),
{
    let mut text = String::from_str("Points de vie: ");
    push_decimal(&mut text, if hp < 0 { 0 } else { hp });
    text.append(" / ");
    push_decimal(&mut text, stats.hp);
    text.append("\nAttaque: ");
    push_decimal(&mut text, stats.attack);
    text.append("\nVitesse: ");
    push_decimal(&mut text, stats.speed);
    text.append("\nCritique: ");
    push_decimal(&mut text, stats.critical_chance);
    text.append("%");
    text
}

/// What the combat screen says of one blow, and nothing of any other event.
pub open spec fn blow_text(event: LogEvent) -> Seq<char> {
    match event {
        LogEvent::EnemyDodged => "L'ennemi esquive votre attaque !"@,
        LogEvent::PlayerCritical(damage) => "⚡ COUP CRITIQUE !\nDegats: "@ + decimal(
            damage as int,
        ),
        LogEvent::PlayerHit(damage) => "Vous attaquez !\nDegats: "@ + decimal(damage as int),
        LogEvent::PlayerDodged => "Vous esquivez l'attaque !"@,
        LogEvent::EnemyCritical(damage) => "⚡ CRITIQUE ENNEMI !\nDegats: "@ + decimal(
            damage as int,
        ),
        LogEvent::EnemyHit(damage) => "L'ennemi attaque !\nDegats: "@ + decimal(damage as int),
        _ => Seq::empty(),
    }
}

/// The message in the middle of the combat screen after an attack with the given
/// events, which left the given counters.
///
/// A victory and a defeat have a message of their own. Otherwise the message
/// tells the player's blow, the hit points left to the enemy, the enemy's blow
/// and the hit points left to the player, both as shown. Without events there
/// is no message.
pub open spec fn round_text(events: Seq<LogEvent>, enemy_hp: int, player_hp: int) -> Seq<char> {
    if events.len() == 0 {
        Seq::empty()
    } else if events.last() == LogEvent::Victory {
        "🎉 VICTOIRE ! 🎉\n\nChoisissez une amelioration:\nH = +10 HP | A = +2 ATK\nS = +1 SPD | C = +2% CRIT"@
    } else if events.last() == LogEvent::Defeat {
        "💀 DEFAITE... 💀\n\nAppuyez sur R pour recommencer"@
    } else if events.len() == 1 {
        "--- VOTRE TOUR ---\n\n"@ + blow_text(events[0])
    } else {
        "--- VOTRE TOUR ---\n\n"@ + blow_text(events[0]) + "\n\nHP ennemi: "@ + decimal(
            shown_hp(enemy_hp),
        ) + "\n\n--- TOUR ENNEMI ---\n\n"@ + blow_text(events[1]) + "\n\nVos HP: "@ + decimal(
            shown_hp(player_hp),
        ) + "\n\n[ESPACE] pour continuer"@
    }
}

/// Appends what the combat screen says of one blow.
fn push_blow(line: &mut String, event: &LogEvent)
    ensures
        final(line)@ == old(line)@ + blow_text(*event),
{
    match event {
        LogEvent::EnemyDodged => line.append("L'ennemi esquive votre attaque !"),
        LogEvent::PlayerCritical(damage) => {
            line.append("⚡ COUP CRITIQUE !\nDegats: ");
            push_decimal(line, *damage);
        },
        LogEvent::PlayerHit(damage) => {
            line.append("Vous attaquez !\nDegats: ");
            push_decimal(line, *damage);
        },
        LogEvent::PlayerDodged => line.append("Vous esquivez l'attaque !"),
        LogEvent::EnemyCritical(damage) => {
            line.append("⚡ CRITIQUE ENNEMI !\nDegats: ");
            push_decimal(line, *damage);
        },
        LogEvent::EnemyHit(damage) => {
            line.append("L'ennemi attaque !\nDegats: ");
            push_decimal(line, *damage);
        },
        _ => {},
    }
}

/// Writes the message in the middle of the combat screen after an attack.
pub fn round_message(events: &Vec<LogEvent>, enemy_hp: i32, player_hp: i32) -> (text: String)
    ensures
        text@ == round_text(events@, enemy_hp as int, player_hp as int),
{
    let count = events.len();
    if count == 0 {
        return String::new();
    }
    match events[count - 1] {
        LogEvent::Victory => {
            return String::from_str(
                "🎉 VICTOIRE ! 🎉\n\nChoisissez une amelioration:\nH = +10 HP | A = +2 ATK\nS = +1 SPD | C = +2% CRIT",
            );
        },
        LogEvent::Defeat => {
            return String::from_str("💀 DEFAITE... 💀\n\nAppuyez sur R pour recommencer");
        },
        _ => {},
    }
    let mut text = String::from_str("--- VOTRE TOUR ---\n\n");
    push_blow(&mut text, &events[0]);
    if count > 1 {
        text.append("\n\nHP ennemi: ");
        push_decimal(&mut text, if enemy_hp < 0 { 0 } else { enemy_hp });
        text.append("\n\n--- TOUR ENNEMI ---\n\n");
        push_blow(&mut text, &events[1]);
        text.append("\n\nVos HP: ");
        push_decimal(&mut text, if player_hp < 0 { 0 } else { player_hp });
        text.append("\n\n[ESPACE] pour continuer");
    }
    text
}

/// The lines, each but the last followed by a line feed.
pub open spec fn joined_lines(lines: Seq<String>) -> Seq<char>
    decreases lines.len(),
{
    if lines.len() == 0 {
        Seq::empty()
    } else if lines.len() == 1 {
        lines[0]@
    } else {
        joined_lines(lines.drop_last()) + "\n"@ + lines.last()@
    }
}

/// The last `count` lines, or all of them where there are fewer.
pub open spec fn last_lines(lines: Seq<String>, count: nat) -> Seq<String> {
    if lines.len() <= count {
        lines
    } else {
        lines.skip(lines.len() - count)
    }
}

/// Copies the last `count` lines, or all of them where there are fewer.
pub fn recent_lines(lines: &Vec<String>, count: usize) -> (recent: Vec<String>)
    ensures
        recent@ == last_lines(lines@, count as nat),
{
    let first = if lines.len() <= count {
        0
    } else {
        lines.len() - count
    };
    let mut recent: Vec<String> = Vec::new();
    let mut i: usize = first;
    while i < lines.len()
        invariant
            first <= i <= lines@.len(),
            recent@ == lines@.subrange(first as int, i as int),
        decreases lines@.len() - i,
    {
        recent.push(lines[i].clone());
        i = i + 1;
    }
    recent
}

/// The number of lines that a `GameLog` keeps.
pub const LOG_CAPACITY: usize = 10;

/// The most recent lines told to the player, oldest first.
pub struct GameLog {
    pub messages: Vec<String>,
}

impl Default for GameLog {
    /// An empty log.
    fn default() -> (log: GameLog)
        ensures
            log.messages@.len() == 0,
    {
        GameLog::new()
    }
}

impl GameLog {
    /// An empty log.
    pub fn new() -> (log: GameLog)
        ensures
            log.messages@.len() == 0,
    {
        GameLog { messages: Vec::new() }
    }

    /// The lines of the log after one more line: the line is added at the end and,
    /// when that makes more than `LOG_CAPACITY` lines, the oldest line is dropped.
    pub open spec fn with_message(messages: Seq<String>, message: String) -> Seq<String> {
        let added = messages.push(message);
        if added.len() > LOG_CAPACITY {
            added.remove(0)
        } else {
            added
        }
    }

    /// The text that shows a log: a welcome while the log is empty, and its lines
    /// afterwards.
    pub open spec fn shown(messages: Seq<String>) -> Seq<char> {
        if messages.len() == 0 {
            "Bienvenue dans le jeu !"@
        } else {
            joined_lines(messages)
        }
    }

    /// Writes the text that shows the log.
    pub fn text(&self) -> (text: String)
        ensures
            text@ == Self::shown(self.messages@),
    {
        if self.messages.len() == 0 {
            return String::from_str("Bienvenue dans le jeu !");
        }
        let mut text = String::new();
        text.append(self.messages[0].as_str());
        let mut i: usize = 1;
        while i < self.messages.len()
            invariant
                1 <= i <= self.messages@.len(),
                text@ == joined_lines(self.messages@.take(i as int)),
            decreases self.messages@.len() - i,
        {
            text.append("\n");
            text.append(self.messages[i].as_str());
            proof {
                let more = self.messages@.take(i + 1);
                assert(more.drop_last() =~= self.messages@.take(i as int));
            }
            i = i + 1;
        }
        assert(self.messages@.take(i as int) =~= self.messages@);
        text
    }

    /// Adds a line to the log and drops the oldest line when the log is over its
    /// capacity.
    pub fn add_message(&mut self, message: String)
        ensures
            final(self).messages@ == Self::with_message(old(self).messages@, message),
    {
        self.messages.push(message);
        if self.messages.len() > LOG_CAPACITY {
            self.messages.remove(0);
        }
    }
}

} // verus!
