use vstd::prelude::*;

use crate::personality::{self, lines_of, mood_of};
use crate::clock::{self, Timestamp};
use crate::pet::{acted, acted_at, fits, Pet, PetAction};
use crate::text::{decimal, decimal_string, replace, replace_all};

verus! {

/// The state the interactive screen reads from each frame.
pub struct App {
    pub pet: Pet,
    pub running: bool,
    /// Feedback from the most recent action (e.g. "Unni munches happily!").
    /// Replaced by the next action; there's no timer, so it stays until then.
    pub last_message: Option<String>,
    pub show_info: bool,
}

/// A key as the interactive screen tells keys apart.
#[derive(Clone, Copy, Debug, PartialEq, Eq, Structural)]
pub enum Key {
    Char(char),
    Esc,
    Other,
}

/// One key press: the key, and whether Control was held.
#[derive(Clone, Copy, Debug, PartialEq, Eq, Structural)]
pub struct KeyPress {
    pub key: Key,
    pub ctrl: bool,
}

/// What a key press asks the screen to do.
#[derive(Clone, Copy, Debug, PartialEq, Eq, Structural)]
pub enum KeyCommand {
    Quit,
    Act(PetAction),
    ToggleInfo,
    Ignore,
}

/// Whether `k` is the letter `lower` in either case.
pub open spec fn is_letter(k: Key, lower: char, upper: char) -> bool {
    k == Key::Char(lower) || k == Key::Char(upper)
}

/// The meaning of a key press: `q`, `Q` or Esc quit, and so does Ctrl+C;
/// `f`, `p`, `s` and `a` (either case) feed, play, put to sleep and pet;
/// `i` toggles the info panel; anything else is ignored.
pub open spec fn command_of(k: KeyPress) -> KeyCommand {
    if is_letter(k.key, 'q', 'Q') || k.key == Key::Esc {
        KeyCommand::Quit
    } else if k.ctrl && k.key == Key::Char('c') {
        KeyCommand::Quit
    } else if is_letter(k.key, 'f', 'F') {
        KeyCommand::Act(PetAction::Feed)
    } else if is_letter(k.key, 'p', 'P') {
        KeyCommand::Act(PetAction::Play)
    } else if is_letter(k.key, 's', 'S') {
        KeyCommand::Act(PetAction::Sleep)
    } else if is_letter(k.key, 'a', 'A') {
        KeyCommand::Act(PetAction::Pet)
    } else if is_letter(k.key, 'i', 'I') {
        KeyCommand::ToggleInfo
    } else {
        KeyCommand::Ignore
    }
}

/// Law: each action key works in either case, with or without Control:
/// `f`/`F` feed, `p`/`P` play, `s`/`S` put to sleep, `a`/`A` pet, `i`/`I`
/// toggle the info panel, and `q`/`Q` and Esc quit.
pub proof fn letter_keys_work_in_both_cases(ctrl: bool)
    ensures
        command_of(KeyPress { key: Key::Char('f'), ctrl }) == KeyCommand::Act(PetAction::Feed),
        command_of(KeyPress { key: Key::Char('F'), ctrl }) == KeyCommand::Act(PetAction::Feed),
        command_of(KeyPress { key: Key::Char('p'), ctrl }) == KeyCommand::Act(PetAction::Play),
        command_of(KeyPress { key: Key::Char('P'), ctrl }) == KeyCommand::Act(PetAction::Play),
        command_of(KeyPress { key: Key::Char('s'), ctrl }) == KeyCommand::Act(PetAction::Sleep),
        command_of(KeyPress { key: Key::Char('S'), ctrl }) == KeyCommand::Act(PetAction::Sleep),
        command_of(KeyPress { key: Key::Char('a'), ctrl }) == KeyCommand::Act(PetAction::Pet),
        command_of(KeyPress { key: Key::Char('A'), ctrl }) == KeyCommand::Act(PetAction::Pet),
        command_of(KeyPress { key: Key::Char('i'), ctrl }) == KeyCommand::ToggleInfo,
        command_of(KeyPress { key: Key::Char('I'), ctrl }) == KeyCommand::ToggleInfo,
        command_of(KeyPress { key: Key::Char('q'), ctrl }) == KeyCommand::Quit,
        command_of(KeyPress { key: Key::Char('Q'), ctrl }) == KeyCommand::Quit,
        command_of(KeyPress { key: Key::Esc, ctrl }) == KeyCommand::Quit,
        command_of(KeyPress { key: Key::Other, ctrl }) == KeyCommand::Ignore,
{
}

/// Law: Control+C quits, while a plain `c` does nothing; and every other
/// character than the command letters is ignored, with or without Control.
pub proof fn other_keys_are_ignored(c: char, ctrl: bool)
    ensures
        command_of(KeyPress { key: Key::Char('c'), ctrl: true }) == KeyCommand::Quit,
        command_of(KeyPress { key: Key::Char('c'), ctrl: false }) == KeyCommand::Ignore,
        c != 'f' && c != 'F' && c != 'p' && c != 'P' && c != 's' && c != 'S' && c != 'a' && c
            != 'A' && c != 'i' && c != 'I' && c != 'q' && c != 'Q' && c != 'c' ==> command_of(
            KeyPress { key: Key::Char(c), ctrl },
        ) == KeyCommand::Ignore,
{
}

/// The feedback template of each action; `{name}` stands for the pet's name.
pub open spec fn template_of(a: PetAction) -> Seq<char> {
    match a {
        PetAction::Feed => "{name} munches happily!"@,
        PetAction::Play => "{name} had fun playing!"@,
        PetAction::Sleep => "{name} wakes up feeling rested."@,
        PetAction::Pet => "{name} purrs contentedly."@,
    }
}

/// The feedback after an action: the template with the pet's name filled in,
/// followed by a level-up notice when the action brought a new level.
pub open spec fn feedback(template: Seq<char>, name: Seq<char>, leveled: bool, level: nat) -> Seq<char> {
    let base = replace_all(template, "{name}"@, name);
    if leveled {
        base + " Level up! Now level "@ + decimal(level) + "."@
    } else {
        base
    }
}

/// `line` between double quotes, as the screen shows a line the pet says.
pub open spec fn quoted(line: Seq<char>) -> Seq<char> {
    "\""@ + line + "\""@
}

impl App {
    pub fn new(pet: Pet) -> (app: App)
        ensures
            app.pet == pet,
            app.running,
            app.last_message is None,
            !app.show_info,
    {
        App { pet, running: true, last_message: None, show_info: false }
    }

    pub fn quit(&mut self)
        ensures
            !final(self).running,
            final(self).pet == old(self).pet,
            final(self).last_message == old(self).last_message,
            final(self).show_info == old(self).show_info,
    {
        self.running = false;
    }

    /// The line shown under the pet: the feedback of the last action, or,
    /// before any, a quoted line of the pet's mood.
    pub fn message_line(&self) -> (line: String)
        ensures
            match self.last_message {
                Some(m) => line@ == m@,
                None => exists|l: &'static str|
                    lines_of(mood_of(self.pet)).contains(l) && line@ == quoted(l@),
            },
    {
        match &self.last_message {
            Some(m) => m.clone(),
            None => {
                let l = personality::message(&self.pet);
                quote(l)
            },
        }
    }

    /// Handles one key press at time `now`. Returns whether the pet changed
    /// and must be saved.
    pub fn handle_key_at(&mut self, k: KeyPress, now: Timestamp) -> (save: bool)
        requires
            command_of(k) matches KeyCommand::Act(a) ==> fits(a, old(self).pet),
        ensures
            match command_of(k) {
                KeyCommand::Quit => {
                    &&& !final(self).running
                    &&& final(self).pet == old(self).pet
                    &&& final(self).last_message == old(self).last_message
                    &&& final(self).show_info == old(self).show_info
                    &&& !save
                },
                KeyCommand::Act(a) => {
                    &&& acted_with_feedback(a, *old(self), *final(self))
                    &&& final(self).pet.last_updated == now
                    &&& save
                },
                KeyCommand::ToggleInfo => {
                    &&& final(self).show_info == !old(self).show_info
                    &&& final(self).pet == old(self).pet
                    &&& final(self).running == old(self).running
                    &&& final(self).last_message == old(self).last_message
                    &&& !save
                },
                KeyCommand::Ignore => {
                    &&& *final(self) == *old(self)
                    &&& !save
                },
            },
    {
        match key_command(k) {
            KeyCommand::Quit => {
                self.quit();
                false
            },
            KeyCommand::Act(a) => {
                let leveled = apply_action_at(self, a, template(a), now);
                assert(acted(a, old(self).pet, self.pet, leveled));
                true
            },
            KeyCommand::ToggleInfo => {
                self.show_info = !self.show_info;
                false
            },
            KeyCommand::Ignore => false,
        }
    }

    /// Handles one key press, an action taking the current time as the pet's
    /// last update. Returns whether the pet changed and must be saved.
    pub fn handle_key(&mut self, k: KeyPress) -> (save: bool)
        requires
            command_of(k) matches KeyCommand::Act(a) ==> fits(a, old(self).pet),
        ensures
            match command_of(k) {
                KeyCommand::Quit => {
                    &&& !final(self).running
                    &&& final(self).pet == old(self).pet
                    &&& final(self).last_message == old(self).last_message
                    &&& final(self).show_info == old(self).show_info
                    &&& !save
                },
                KeyCommand::Act(a) => {
                    &&& acted_with_feedback(a, *old(self), *final(self))
                    &&& save
                },
                KeyCommand::ToggleInfo => {
                    &&& final(self).show_info == !old(self).show_info
                    &&& final(self).pet == old(self).pet
                    &&& final(self).running == old(self).running
                    &&& final(self).last_message == old(self).last_message
                    &&& !save
                },
                KeyCommand::Ignore => {
                    &&& *final(self) == *old(self)
                    &&& !save
                },
            },
    {
        self.handle_key_at(k, clock::now())
    }
}

/// `after` is `before` once `a` has run on its pet and its feedback has been
/// recorded; whether the screen runs and shows its info panel is unchanged.
pub open spec fn acted_with_feedback(a: PetAction, before: App, after: App) -> bool {
    exists|leveled: bool|
        {
            &&& acted(a, before.pet, after.pet, leveled)
            &&& after.last_message matches Some(m) && m@ == feedback(
                template_of(a),
                after.pet.name@,
                leveled,
                after.pet.level as nat,
            )
            &&& after.running == before.running
            &&& after.show_info == before.show_info
        }
}

fn quote(line: &str) -> (q: String)
    ensures
        q@ == quoted(line@),
{
    let mut q = String::from_str("\"");
    q.append(line);
    q.append("\"");
    q
}

/// Decides what a key press means.
pub fn key_command(k: KeyPress) -> (c: KeyCommand)
    ensures
        c == command_of(k),
{
    match k.key {
        Key::Esc => KeyCommand::Quit,
        Key::Other => KeyCommand::Ignore,
        Key::Char(ch) => {
            if ch == 'q' || ch == 'Q' {
                KeyCommand::Quit
            } else if k.ctrl && ch == 'c' {
                KeyCommand::Quit
            } else if ch == 'f' || ch == 'F' {
                KeyCommand::Act(PetAction::Feed)
            } else if ch == 'p' || ch == 'P' {
                KeyCommand::Act(PetAction::Play)
            } else if ch == 's' || ch == 'S' {
                KeyCommand::Act(PetAction::Sleep)
            } else if ch == 'a' || ch == 'A' {
                KeyCommand::Act(PetAction::Pet)
            } else if ch == 'i' || ch == 'I' {
                KeyCommand::ToggleInfo
            } else {
                KeyCommand::Ignore
            }
        },
    }
}

/// The feedback template of an action.
pub fn template(a: PetAction) -> (t: &'static str)
    ensures
        t@ == template_of(a),
{
    match a {
        PetAction::Feed => "{name} munches happily!",
        PetAction::Play => "{name} had fun playing!",
        PetAction::Sleep => "{name} wakes up feeling rested.",
        PetAction::Pet => "{name} purrs contentedly.",
    }
}

/// Runs one pet action at time `now` and records its feedback for the screen: `template`
/// with `{name}` replaced by the pet's name, plus a level-up notice when the
/// action brought a new level.
/// Returns whether the pet leveled up.
pub fn apply_action_at(app: &mut App, action: PetAction, template: &str, now: Timestamp) -> (leveled: bool)
    requires
        fits(action, old(app).pet),
    ensures
        acted_at(action, old(app).pet, final(app).pet, leveled, now),
        final(app).last_message matches Some(m) && m@ == feedback(
            template@,
            final(app).pet.name@,
            leveled,
            final(app).pet.level as nat,
        ),
        final(app).running == old(app).running,
        final(app).show_info == old(app).show_info,
{
    let leveled_up = app.pet.act_at(action, now);
    proof {
        reveal_strlit("{name}");
    }
    let mut message = replace(template, "{name}", app.pet.name.as_str());
    if leveled_up {
        message.append(" Level up! Now level ");
        let level = decimal_string(app.pet.level);
        message.append(level.as_str());
        message.append(".");
    }
    app.last_message = Some(message);
    leveled_up
}

/// Runs one pet action and records its feedback for the screen, taking the
/// current time as the pet's last update. Returns whether the pet leveled up.
pub fn apply_action(app: &mut App, action: PetAction, template: &str) -> (leveled: bool)
    requires
        fits(action, old(app).pet),
    ensures
        acted(action, old(app).pet, final(app).pet, leveled),
        final(app).last_message matches Some(m) && m@ == feedback(
            template@,
            final(app).pet.name@,
            leveled,
            final(app).pet.level as nat,
        ),
        final(app).running == old(app).running,
        final(app).show_info == old(app).show_info,
{
    apply_action_at(app, action, template, clock::now())
}

} // verus!
