use vstd::prelude::*;

use rand::seq::SliceRandom;

use crate::pet::Pet;

verus! {

/// A level of 5+ means roughly 30-50 actions taken, so it's a real milestone
/// without taking too long to reach.
pub const HIGH_LEVEL_THRESHOLD: u32 = 5;

pub const HUNGRY: [&'static str; 2] = ["I could really use some food...", "Do you have snacks?"];

pub const TIRED: [&'static str; 2] = ["...sleep...", "I'm exhausted."];

pub const HIGH_LEVEL: [&'static str; 1] = ["Look how strong I've become!"];

pub const HAPPY: [&'static str; 3] = ["Today is a good day.", "Can we play?", "I'm feeling great!"];

pub const NEUTRAL: [&'static str; 2] = ["I'm doing okay.", "Just another day."];

/// The mood categories, in priority order: hungry beats tired beats a level
/// milestone beats being happy, with a neutral fallback.
#[derive(Clone, Copy, Debug, PartialEq, Eq, Structural)]
pub enum Mood {
    Hungry,
    Tired,
    HighLevel,
    Happy,
    Neutral,
}

/// The mood a pet is in: the first of the rules that holds.
pub open spec fn mood_of(p: Pet) -> Mood {
    if p.hunger < 20 {
        Mood::Hungry
    } else if p.energy < 20 {
        Mood::Tired
    } else if p.level >= HIGH_LEVEL_THRESHOLD {
        Mood::HighLevel
    } else if p.happiness > 70 {
        Mood::Happy
    } else {
        Mood::Neutral
    }
}

/// Law: the mood rules are tried in priority order: being hungry outranks
/// everything else, being tired outranks a level milestone and happiness, a
/// milestone (level 5 or more) outranks happiness, and a pet none of these
/// fits is neutral.
pub proof fn mood_priority(p: Pet)
    ensures
        p.hunger < 20 ==> mood_of(p) == Mood::Hungry,
        p.hunger >= 20 && p.energy < 20 ==> mood_of(p) == Mood::Tired,
        p.hunger >= 20 && p.energy >= 20 && p.level >= 5 ==> mood_of(p)
            == Mood::HighLevel,
        p.hunger >= 20 && p.energy >= 20 && p.level < 5 && p.happiness > 70
            ==> mood_of(p) == Mood::Happy,
        p.hunger >= 20 && p.energy >= 20 && p.level < 5 && p.happiness <= 70
            ==> mood_of(p) == Mood::Neutral,
{
}

/// The lines a pet in mood `m` may say.
pub open spec fn lines_of(m: Mood) -> Seq<&'static str> {
    match m {
        Mood::Hungry => HUNGRY@,
        Mood::Tired => TIRED@,
        Mood::HighLevel => HIGH_LEVEL@,
        Mood::Happy => HAPPY@,
        Mood::Neutral => NEUTRAL@,
    }
}

/// Law: the line pools hold the pet's fixed lines: two for hunger, two for
/// tiredness, one for a level milestone, three for happiness and two for a
/// neutral mood.
pub proof fn mood_lines(m: Mood)
    ensures
        lines_of(Mood::Hungry) =~= seq!["I could really use some food...", "Do you have snacks?"],
        lines_of(Mood::Tired) =~= seq!["...sleep...", "I'm exhausted."],
        lines_of(Mood::HighLevel) =~= seq!["Look how strong I've become!"],
        lines_of(Mood::Happy) =~= seq!["Today is a good day.", "Can we play?", "I'm feeling great!"],
        lines_of(Mood::Neutral) =~= seq!["I'm doing okay.", "Just another day."],
        lines_of(m).len() > 0,
{
}

/// Decides the pet's mood by the fixed priority rules.
pub fn mood(pet: &Pet) -> (m: Mood)
    ensures
        m == mood_of(*pet),
{
    if pet.hunger < 20 {
        Mood::Hungry
    } else if pet.energy < 20 {
        Mood::Tired
    } else if pet.level >= HIGH_LEVEL_THRESHOLD {
        Mood::HighLevel
    } else if pet.happiness > 70 {
        Mood::Happy
    } else {
        Mood::Neutral
    }
}

/// The pool of lines for a mood.
pub fn lines(m: Mood) -> (pool: &'static [&'static str])
    ensures
        pool@ == lines_of(m),
        pool@.len() > 0,
{
    match m {
        Mood::Hungry => &HUNGRY,
        Mood::Tired => &TIRED,
        Mood::HighLevel => &HIGH_LEVEL,
        Mood::Happy => &HAPPY,
        Mood::Neutral => &NEUTRAL,
    }
}

/// Calls rand's `SliceRandom::choose` on `pool` with the thread-local
/// generator. Its documentation and source give `None` for an empty slice and
/// otherwise a reference to one element of it; which element is left to
/// chance and not claimed.
#[verifier::external_body]
fn choose_line(pool: &[&'static str]) -> (line: Option<&'static str>)
    ensures
        line is None <==> pool@.len() == 0,
        line matches Some(l) ==> pool@.contains(l),
{
    pool.choose(&mut rand::thread_rng()).copied()
}

/// Picks a message for the pet's current mood.
///
/// Which pool is used is decided by simple, fixed rules (see [`mood_of`]);
/// which line of that pool comes back is random.
pub fn message(pet: &Pet) -> (line: &'static str)
    ensures
        lines_of(mood_of(*pet)).contains(line),
{
    let pool = lines(mood(pet));
    choose_line(pool).unwrap()
}

} // verus!
