use vstd::prelude::*;

use crate::clock::{self, Timestamp};

verus! {

/// The name a freshly hatched pet gets.
pub const DEFAULT_NAME: &'static str = "Unni";

/// Experience points that make up one level.
pub const XP_PER_LEVEL: u32 = 100;

/// The pet's state: everything that is saved between runs.
///
/// Happiness, hunger, energy and health are meant to lie in 0..=100
/// (hunger 0 = full, 100 = starving); see [`stats_in_range`].
#[derive(Clone, Debug, PartialEq)]
pub struct Pet {
    pub name: String,
    pub happiness: u32,
    pub hunger: u32,
    pub energy: u32,
    pub health: u32,
    pub level: u32,
    pub xp: u32,
    pub created_at: Timestamp,
    pub last_updated: Timestamp,
}

/// The four things a player can do to the pet.
#[derive(Clone, Copy, Debug, PartialEq, Eq, Structural)]
pub enum PetAction {
    Feed,
    Play,
    Sleep,
    Pet,
}

/// `(x + d).min(100)`.
pub open spec fn capped_add(x: u32, d: int) -> int {
    if x + d < 100 {
        x + d
    } else {
        100
    }
}

/// `x.saturating_sub(d)`.
pub open spec fn floored_sub(x: u32, d: int) -> int {
    if x >= d {
        x - d
    } else {
        0
    }
}

/// The stat invariant of a well-kept pet: each stat in 0..=100, a level of at
/// least one, and less than a level's worth of experience.
pub open spec fn stats_in_range(p: Pet) -> bool {
    &&& p.happiness <= 100
    &&& p.hunger <= 100
    &&& p.energy <= 100
    &&& p.health <= 100
    &&& p.level >= 1
    &&& p.xp < XP_PER_LEVEL
}

/// Total experience ever earned: full levels above the first, plus the
/// experience towards the next one.
pub open spec fn total_xp(p: Pet) -> int {
    (p.level - 1) * XP_PER_LEVEL + p.xp
}

/// `after` holds `before` with `amount` experience added, rolled over into one
/// more level when it reaches [`XP_PER_LEVEL`]; `leveled` says whether it did.
pub open spec fn gained_xp(before: Pet, after: Pet, amount: int, leveled: bool) -> bool {
    let x = before.xp + amount;
    if x >= XP_PER_LEVEL {
        &&& after.xp == x - XP_PER_LEVEL
        &&& after.level == before.level + 1
        &&& leveled
    } else {
        &&& after.xp == x
        &&& after.level == before.level
        &&& !leveled
    }
}

/// `after` holds `before`'s level and experience, and there was no level-up.
pub open spec fn same_progress(before: Pet, after: Pet, leveled: bool) -> bool {
    &&& after.xp == before.xp
    &&& after.level == before.level
    &&& !leveled
}

/// What `action` does to the pet: `after` is `before` with the action's
/// changes, and `leveled` tells whether it brought a new level. The time of
/// the last update is stated by [`acted_at`].
pub open spec fn acted(action: PetAction, before: Pet, after: Pet, leveled: bool) -> bool {
    &&& after.name@ == before.name@
    &&& after.health == before.health
    &&& after.created_at == before.created_at
    &&& match action {
        PetAction::Feed => {
            &&& after.hunger == floored_sub(before.hunger, 30)
            &&& after.happiness == capped_add(before.happiness, 5)
            &&& after.energy == before.energy
            &&& same_progress(before, after, leveled)
        },
        PetAction::Play => {
            &&& after.happiness == capped_add(before.happiness, 20)
            &&& after.energy == floored_sub(before.energy, 15)
            &&& after.hunger == capped_add(before.hunger, 5)
            &&& gained_xp(before, after, 10, leveled)
        },
        PetAction::Sleep => {
            &&& after.energy == capped_add(before.energy, 40)
            &&& after.hunger == capped_add(before.hunger, 10)
            &&& after.happiness == before.happiness
            &&& same_progress(before, after, leveled)
        },
        PetAction::Pet => {
            &&& after.happiness == capped_add(before.happiness, 10)
            &&& after.hunger == before.hunger
            &&& after.energy == before.energy
            &&& same_progress(before, after, leveled)
        },
    }
}

/// What `action` does when it runs at `now`: its changes, with `now` as the
/// time of the last update.
pub open spec fn acted_at(action: PetAction, before: Pet, after: Pet, leveled: bool, now: Timestamp) -> bool {
    &&& acted(action, before, after, leveled)
    &&& after.last_updated == now
}

/// The inputs on which `action` stays within `u32`: the sums it forms before
/// capping them at 100 (and a level-up's new level) do not overflow.
pub open spec fn fits(action: PetAction, p: Pet) -> bool {
    match action {
        PetAction::Feed => p.happiness + 5 <= u32::MAX,
        PetAction::Play => {
            &&& p.happiness + 20 <= u32::MAX
            &&& p.hunger + 5 <= u32::MAX
            &&& p.xp + 10 <= u32::MAX
            &&& p.xp + 10 >= XP_PER_LEVEL ==> p.level + 1 <= u32::MAX
        },
        PetAction::Sleep => p.energy + 40 <= u32::MAX && p.hunger + 10 <= u32::MAX,
        PetAction::Pet => p.happiness + 10 <= u32::MAX,
    }
}

/// The status line that [`Pet::get_status_message`] gives.
pub open spec fn status_message(p: Pet) -> Seq<char> {
    if p.happiness > 70 {
        "I'm feeling great!"@
    } else if p.happiness < 30 {
        "I'm sad..."@
    } else if p.hunger > 80 {
        "I'm so hungry!"@
    } else if p.energy < 20 {
        "I need sleep..."@
    } else {
        "I'm doing okay."@
    }
}

/// Law: whatever an action does, a pet whose stats are in range keeps them
/// in range (each stat within 0..=100, a level of at least one, and less
/// than a level's worth of experience).
pub proof fn action_keeps_stats_in_range(action: PetAction, before: Pet, after: Pet, leveled: bool)
    requires
        stats_in_range(before),
        acted(action, before, after, leveled),
    ensures
        stats_in_range(after),
{
}

/// Law: a pet whose stats are in range, and whose level is not the largest
/// one a `u32` holds, can take every action without overflow.
pub proof fn in_range_pet_can_act(action: PetAction, p: Pet)
    requires
        stats_in_range(p),
        p.level < u32::MAX,
    ensures
        fits(action, p),
{
}

/// Law: playing earns exactly ten experience points and no other action
/// earns any; experience and levels are never lost, and a level-up happens
/// exactly when the experience towards the next level reaches a full level.
pub proof fn experience_is_earned_by_play_alone(
    action: PetAction,
    before: Pet,
    after: Pet,
    leveled: bool,
)
    requires
        before.level >= 1,
        acted(action, before, after, leveled),
    ensures
        total_xp(after) == total_xp(before) + if action == PetAction::Play { 10int } else { 0int },
        after.level >= before.level,
        leveled <==> (action == PetAction::Play && before.xp + 10 >= XP_PER_LEVEL),
        leveled ==> after.level == before.level + 1,
{
    if action == PetAction::Play && before.xp + 10 >= XP_PER_LEVEL {
        assert((after.level - 1) * XP_PER_LEVEL == (before.level - 1) * XP_PER_LEVEL + XP_PER_LEVEL)
            by (nonlinear_arith)
            requires
                after.level == before.level + 1,
        ;
    }
}

/// Law: on a pet whose stats are in range, each action moves each stat the
/// way its name says: feeding sates and cheers, playing cheers, tires and
/// makes hungry, sleep rests and makes hungry, petting cheers; a stat that
/// moves up does so unless it is already at 100, one that moves down unless
/// it is already at 0.
pub proof fn actions_move_stats_their_way(action: PetAction, before: Pet, after: Pet, leveled: bool)
    requires
        stats_in_range(before),
        acted(action, before, after, leveled),
    ensures
        action == PetAction::Feed ==> {
            &&& after.hunger <= before.hunger
            &&& (before.hunger > 0 ==> after.hunger < before.hunger)
            &&& after.happiness >= before.happiness
            &&& (before.happiness < 100 ==> after.happiness > before.happiness)
        },
        action == PetAction::Play ==> {
            &&& after.happiness >= before.happiness
            &&& (before.happiness < 100 ==> after.happiness > before.happiness)
            &&& after.energy <= before.energy
            &&& (before.energy > 0 ==> after.energy < before.energy)
            &&& after.hunger >= before.hunger
        },
        action == PetAction::Sleep ==> {
            &&& after.energy >= before.energy
            &&& (before.energy < 100 ==> after.energy > before.energy)
            &&& after.hunger >= before.hunger
        },
        action == PetAction::Pet ==> {
            &&& after.happiness >= before.happiness
            &&& (before.happiness < 100 ==> after.happiness > before.happiness)
        },
        after.health == before.health,
{
}

/// Law: feeding takes 30 from hunger (stopping at 0) and adds 5 to
/// happiness (stopping at 100), and changes nothing else of the pet's stats:
/// energy, health, level and experience stay as they were, and it never
/// levels up.
pub proof fn feeding_changes_hunger_and_happiness_only(before: Pet, after: Pet, leveled: bool)
    requires
        acted(PetAction::Feed, before, after, leveled),
    ensures
        after.hunger == if before.hunger >= 30 { before.hunger - 30 } else { 0 },
        after.happiness == if before.happiness + 5 <= 100 { before.happiness + 5 } else { 100 },
        after.energy == before.energy,
        after.health == before.health,
        after.level == before.level,
        after.xp == before.xp,
        !leveled,
        after.name@ == before.name@,
        after.created_at == before.created_at,
{
}

/// Law: playing adds 20 to happiness and 5 to hunger (each stopping at 100),
/// takes 15 from energy (stopping at 0), leaves health alone, and adds 10
/// experience: below a full level the level stays, and at a full level the
/// pet goes up exactly one level keeping the rest of the experience.
pub proof fn playing_cheers_tires_and_teaches(before: Pet, after: Pet, leveled: bool)
    requires
        acted(PetAction::Play, before, after, leveled),
    ensures
        after.happiness == if before.happiness + 20 <= 100 { before.happiness + 20 } else { 100 },
        after.energy == if before.energy >= 15 { before.energy - 15 } else { 0 },
        after.hunger == if before.hunger + 5 <= 100 { before.hunger + 5 } else { 100 },
        after.health == before.health,
        before.xp + 10 < 100 ==> after.xp == before.xp + 10 && after.level == before.level
            && !leveled,
        before.xp + 10 >= 100 ==> after.xp == before.xp + 10 - 100 && after.level == before.level
            + 1 && leveled,
        after.name@ == before.name@,
        after.created_at == before.created_at,
{
}

/// Law: sleeping adds 40 to energy and 10 to hunger (each stopping at 100)
/// and changes nothing else: happiness, health, level and experience stay,
/// and it never levels up.
pub proof fn sleeping_rests_and_makes_hungry_only(before: Pet, after: Pet, leveled: bool)
    requires
        acted(PetAction::Sleep, before, after, leveled),
    ensures
        after.energy == if before.energy + 40 <= 100 { before.energy + 40 } else { 100 },
        after.hunger == if before.hunger + 10 <= 100 { before.hunger + 10 } else { 100 },
        after.happiness == before.happiness,
        after.health == before.health,
        after.level == before.level,
        after.xp == before.xp,
        !leveled,
        after.name@ == before.name@,
        after.created_at == before.created_at,
{
}

/// Law: petting adds 10 to happiness (stopping at 100) and changes nothing
/// else: hunger, energy, health, level and experience stay, and it never
/// levels up.
pub proof fn petting_cheers_only(before: Pet, after: Pet, leveled: bool)
    requires
        acted(PetAction::Pet, before, after, leveled),
    ensures
        after.happiness == if before.happiness + 10 <= 100 { before.happiness + 10 } else { 100 },
        after.hunger == before.hunger,
        after.energy == before.energy,
        after.health == before.health,
        after.level == before.level,
        after.xp == before.xp,
        !leveled,
        after.name@ == before.name@,
        after.created_at == before.created_at,
{
}

/// Law: an action run at `now` records `now` as the pet's last update, and
/// keeps its birth time.
pub proof fn action_records_its_time(
    action: PetAction,
    before: Pet,
    after: Pet,
    leveled: bool,
    now: Timestamp,
)
    requires
        acted_at(action, before, after, leveled, now),
    ensures
        after.last_updated == now,
        after.created_at == before.created_at,
{
}

/// Law: the status line follows its rules in priority order. Happiness above
/// 70 says the pet feels great, whatever else; happiness below 30 says it is
/// sad, whatever its hunger and energy; only with happiness in 30..=70 does
/// hunger above 80 say it is hungry, and only with hunger at most 80 too does
/// energy below 20 say it needs sleep; otherwise it is okay.
pub proof fn status_message_priority(p: Pet)
    ensures
        p.happiness > 70 ==> status_message(p) == "I'm feeling great!"@,
        p.happiness < 30 ==> status_message(p) == "I'm sad..."@,
        status_message(p) == "I'm so hungry!"@ <== (30 <= p.happiness <= 70 && p.hunger > 80),
        30 <= p.happiness <= 70 && p.hunger <= 80 && p.energy < 20 ==> status_message(p)
            == "I need sleep..."@,
        30 <= p.happiness <= 70 && p.hunger <= 80 && p.energy >= 20 ==> status_message(p)
            == "I'm doing okay."@,
{
}

/// Law: the five status lines are distinct, so the line tells which rule
/// applied: hungry only when happiness is in 30..=70 and hunger above 80, sad
/// only when happiness is below 30.
pub proof fn status_message_tells_its_rule(p: Pet)
    ensures
        status_message(p) == "I'm so hungry!"@ ==> 30 <= p.happiness <= 70 && p.hunger > 80,
        status_message(p) == "I'm sad..."@ ==> p.happiness < 30,
        status_message(p) == "I'm feeling great!"@ ==> p.happiness > 70,
        status_message(p) == "I need sleep..."@ ==> 30 <= p.happiness <= 70 && p.hunger <= 80
            && p.energy < 20,
{
    reveal_strlit("I'm feeling great!");
    reveal_strlit("I'm sad...");
    reveal_strlit("I'm so hungry!");
    reveal_strlit("I need sleep...");
    reveal_strlit("I'm doing okay.");
    let great = "I'm feeling great!"@;
    let sad = "I'm sad..."@;
    let hungry = "I'm so hungry!"@;
    let sleep = "I need sleep..."@;
    let okay = "I'm doing okay."@;
    assert(great[4] != sad[4]);
    assert(great[4] != hungry[4]);
    assert(great[0] != sleep[0] || great[2] != sleep[2]);
    assert(great[4] != okay[4]);
    assert(sad.len() != hungry.len());
    assert(sad.len() != sleep.len());
    assert(sad[4] != okay[4]);
    assert(hungry[0] != sleep[0] || hungry[2] != sleep[2]);
    assert(hungry[4] != okay[4]);
    assert(sleep[2] != okay[2]);
}

/// Law: clamping leaves every stat within 0..=100, changes nothing on a pet
/// whose stats already are, and clamping twice is clamping once.
pub proof fn clamping_settles_stats(x: u32)
    ensures
        clamped(x) <= 100,
        x <= 100 ==> clamped(x) == x,
        clamped(clamped(x) as u32) == clamped(x),
{
}

/// `x.min(100)`.
pub open spec fn clamped(x: u32) -> int {
    if x < 100 {
        x as int
    } else {
        100
    }
}

/// The pet to go on with after looking for a saved one: the saved pet if
/// there is one, else a newly hatched pet with the default name, which must
/// then be saved (the second value says so), born at `now`.
pub fn load_or_hatch(loaded: Option<Pet>, now: Timestamp) -> (r: (Pet, bool))
    ensures
        match loaded {
            Some(p) => r.0 == p && !r.1,
            None => {
                &&& r.0.name@ == DEFAULT_NAME@
                &&& r.0.happiness == 50 && r.0.hunger == 50 && r.0.energy == 80
                &&& r.0.health == 100 && r.0.level == 1 && r.0.xp == 0
                &&& r.0.created_at == now && r.0.last_updated == now
                &&& r.1
            },
        },
{
    match loaded {
        Some(p) => (p, false),
        None => (Pet::new_at(String::from_str(DEFAULT_NAME), now), true),
    }
}

impl Pet {
    /// Create a new pet with default stats, born at the current time.
    pub fn new(name: String) -> (p: Pet)
        ensures
            p.name@ == name@,
            p.happiness == 50,
            p.hunger == 50,
            p.energy == 80,
            p.health == 100,
            p.level == 1,
            p.xp == 0,
            p.created_at == p.last_updated,
            stats_in_range(p),
    {
        Pet::new_at(name, clock::now())
    }

    /// Create a new pet with default stats, born at `now`.
    pub fn new_at(name: String, now: Timestamp) -> (p: Pet)
        ensures
            p.name@ == name@,
            p.happiness == 50,
            p.hunger == 50,
            p.energy == 80,
            p.health == 100,
            p.level == 1,
            p.xp == 0,
            p.created_at == now,
            p.last_updated == now,
            stats_in_range(p),
    {
        Pet {
            name,
            happiness: 50,
            hunger: 50,
            energy: 80,
            health: 100,
            level: 1,
            xp: 0,
            created_at: now,
            last_updated: now,
        }
    }

    /// Adds experience, rolling over into the next level when a level's worth
    /// is reached. Returns whether the pet leveled up.
    fn gain_xp(&mut self, amount: u32) -> (leveled: bool)
        requires
            old(self).xp + amount <= u32::MAX,
            old(self).xp + amount >= XP_PER_LEVEL ==> old(self).level + 1 <= u32::MAX,
        ensures
            gained_xp(*old(self), *final(self), amount as int, leveled),
            final(self).name == old(self).name,
            final(self).happiness == old(self).happiness,
            final(self).hunger == old(self).hunger,
            final(self).energy == old(self).energy,
            final(self).health == old(self).health,
            final(self).created_at == old(self).created_at,
            final(self).last_updated == old(self).last_updated,
    {
        self.xp = self.xp + amount;
        if self.xp >= XP_PER_LEVEL {
            self.xp = self.xp - XP_PER_LEVEL;
            self.level = self.level + 1;
            true
        } else {
            false
        }
    }

    /// Action: feed the pet, at `now`. Returns whether it leveled up (feeding
    /// gives no experience, so never).
    pub fn feed_at(&mut self, now: Timestamp) -> (leveled: bool)
        requires
            fits(PetAction::Feed, *old(self)),
        ensures
            acted_at(PetAction::Feed, *old(self), *final(self), leveled, now),
    {
        self.hunger = self.hunger.saturating_sub(30);
        self.happiness = (self.happiness + 5).min(100);
        self.last_updated = now;
        false
    }

    /// Action: play with the pet, at `now`. It earns experience, and returns
    /// whether that brought a new level.
    pub fn play_at(&mut self, now: Timestamp) -> (leveled: bool)
        requires
            fits(PetAction::Play, *old(self)),
        ensures
            acted_at(PetAction::Play, *old(self), *final(self), leveled, now),
    {
        self.happiness = (self.happiness + 20).min(100);
        self.energy = self.energy.saturating_sub(15);
        self.hunger = (self.hunger + 5).min(100);
        let leveled = self.gain_xp(10);
        self.last_updated = now;
        leveled
    }

    /// Action: let the pet sleep, at `now`. Returns whether it leveled up
    /// (never).
    pub fn sleep_at(&mut self, now: Timestamp) -> (leveled: bool)
        requires
            fits(PetAction::Sleep, *old(self)),
        ensures
            acted_at(PetAction::Sleep, *old(self), *final(self), leveled, now),
    {
        self.energy = (self.energy + 40).min(100);
        self.hunger = (self.hunger + 10).min(100);
        self.last_updated = now;
        false
    }

    /// Action: pet (pat) the pet, at `now`. Returns whether it leveled up
    /// (never).
    pub fn pet_at(&mut self, now: Timestamp) -> (leveled: bool)
        requires
            fits(PetAction::Pet, *old(self)),
        ensures
            acted_at(PetAction::Pet, *old(self), *final(self), leveled, now),
    {
        self.happiness = (self.happiness + 10).min(100);
        self.last_updated = now;
        false
    }

    /// Runs one of the four actions at `now`; returns whether the pet leveled
    /// up.
    pub fn act_at(&mut self, action: PetAction, now: Timestamp) -> (leveled: bool)
        requires
            fits(action, *old(self)),
        ensures
            acted_at(action, *old(self), *final(self), leveled, now),
    {
        match action {
            PetAction::Feed => self.feed_at(now),
            PetAction::Play => self.play_at(now),
            PetAction::Sleep => self.sleep_at(now),
            PetAction::Pet => self.pet_at(now),
        }
    }

    /// Action: feed the pet, recording the current time as its last update.
    pub fn feed(&mut self) -> (leveled: bool)
        requires
            fits(PetAction::Feed, *old(self)),
        ensures
            acted(PetAction::Feed, *old(self), *final(self), leveled),
    {
        self.feed_at(clock::now())
    }

    /// Action: play with the pet, recording the current time as its last
    /// update.
    pub fn play(&mut self) -> (leveled: bool)
        requires
            fits(PetAction::Play, *old(self)),
        ensures
            acted(PetAction::Play, *old(self), *final(self), leveled),
    {
        self.play_at(clock::now())
    }

    /// Action: let the pet sleep, recording the current time as its last
    /// update.
    pub fn sleep(&mut self) -> (leveled: bool)
        requires
            fits(PetAction::Sleep, *old(self)),
        ensures
            acted(PetAction::Sleep, *old(self), *final(self), leveled),
    {
        self.sleep_at(clock::now())
    }

    /// Action: pet (pat) the pet, recording the current time as its last
    /// update.
    pub fn pet(&mut self) -> (leveled: bool)
        requires
            fits(PetAction::Pet, *old(self)),
        ensures
            acted(PetAction::Pet, *old(self), *final(self), leveled),
    {
        self.pet_at(clock::now())
    }

    /// Runs one of the four actions, recording the current time as the last
    /// update; returns whether the pet leveled up.
    pub fn act(&mut self, action: PetAction) -> (leveled: bool)
        requires
            fits(action, *old(self)),
        ensures
            acted(action, *old(self), *final(self), leveled),
    {
        self.act_at(action, clock::now())
    }

    /// Whether `action` can run on this pet without overflowing.
    pub fn can_act(&self, action: PetAction) -> (ok: bool)
        ensures
            ok == fits(action, *self),
    {
        match action {
            PetAction::Feed => self.happiness <= u32::MAX - 5,
            PetAction::Play => {
                self.happiness <= u32::MAX - 20 && self.hunger <= u32::MAX - 5 && self.xp
                    <= u32::MAX - 10 && (self.xp + 10 < XP_PER_LEVEL || self.level < u32::MAX)
            },
            PetAction::Sleep => self.energy <= u32::MAX - 40 && self.hunger <= u32::MAX - 10,
            PetAction::Pet => self.happiness <= u32::MAX - 10,
        }
    }

    /// Clamp all stats to their valid range 0..=100.
    pub fn clamp_stats(&mut self)
        ensures
            final(self).happiness == clamped(old(self).happiness),
            final(self).hunger == clamped(old(self).hunger),
            final(self).energy == clamped(old(self).energy),
            final(self).health == clamped(old(self).health),
            final(self).name == old(self).name,
            final(self).level == old(self).level,
            final(self).xp == old(self).xp,
            final(self).created_at == old(self).created_at,
            final(self).last_updated == old(self).last_updated,
    {
        self.happiness = self.happiness.min(100);
        self.hunger = self.hunger.min(100);
        self.energy = self.energy.min(100);
        self.health = self.health.min(100);
    }

    /// A status line for the pet's current state, by its first matching rule:
    /// very happy, sad, very hungry, tired, or else okay.
    pub fn get_status_message(&self) -> (msg: String)
        ensures
            msg@ == status_message(*self),
    {
        if self.happiness > 70 {
            String::from_str("I'm feeling great!")
        } else if self.happiness < 30 {
            String::from_str("I'm sad...")
        } else if self.hunger > 80 {
            String::from_str("I'm so hungry!")
        } else if self.energy < 20 {
            String::from_str("I need sleep...")
        } else {
            String::from_str("I'm doing okay.")
        }
    }
}

} // verus!
