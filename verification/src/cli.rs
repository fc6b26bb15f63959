use vstd::prelude::*;

use crate::personality::{self, lines_of, mood_of};
use crate::clock::{self, Timestamp};
use crate::pet::{acted, acted_at, fits, Pet, PetAction, DEFAULT_NAME, XP_PER_LEVEL};
use crate::text::{decimal, decimal_string, right_align, right_aligned, trim, trimmed};

verus! {

/// The commands of `pet <command>`.
#[derive(Clone, Copy, Debug, PartialEq, Eq, Structural)]
pub enum CliCommand {
    /// No command: open the interactive terminal screen.
    Interactive,
    Help,
    Status,
    Feed,
    Play,
    Reset,
}

/// A command line that names no known command.
#[derive(Clone, Debug, PartialEq, Eq)]
pub enum CliError {
    UnknownCommand(String),
}

/// The command that the words after the program name ask for; `None` for an
/// unknown word.
pub open spec fn command_named(word: Seq<char>) -> Option<CliCommand> {
    if word == "help"@ {
        Some(CliCommand::Help)
    } else if word == "status"@ {
        Some(CliCommand::Status)
    } else if word == "feed"@ {
        Some(CliCommand::Feed)
    } else if word == "play"@ {
        Some(CliCommand::Play)
    } else if word == "reset"@ {
        Some(CliCommand::Reset)
    } else {
        None
    }
}

/// The text of the error about an unknown command `word`.
pub open spec fn unknown_command_text(word: Seq<char>) -> Seq<char> {
    "unknown command `"@ + word + "` (try `pet help`)"@
}

/// The lines of `pet help`.
pub open spec fn help_lines_of() -> Seq<Seq<char>> {
    seq![
        "Digital Pet - "@ + DEFAULT_NAME@,
        ""@,
        "Usage:"@,
        "  pet               Open interactive terminal UI"@,
        "  pet status        Show pet status"@,
        "  pet feed          Feed "@ + DEFAULT_NAME@,
        "  pet play          Play with "@ + DEFAULT_NAME@,
        "  pet reset         Reset pet (with confirmation)"@,
        "  pet help          Show this help"@,
    ]
}

/// One labelled stat line of the status report.
pub open spec fn stat_line(label: Seq<char>, value: u32) -> Seq<char> {
    label + right_aligned(decimal(value as nat), 3)
}

/// The status report of `p`, with `line` as what the pet says.
pub open spec fn status_lines_of(p: Pet, line: Seq<char>) -> Seq<Seq<char>> {
    seq![
        p.name@ + " - level "@ + decimal(p.level as nat) + " ("@ + decimal(p.xp as nat) + "/"@
            + decimal(XP_PER_LEVEL as nat) + " xp)"@,
        stat_line("  Happiness "@, p.happiness),
        stat_line("  Hunger    "@, p.hunger),
        stat_line("  Energy    "@, p.energy),
        stat_line("  Health    "@, p.health),
        "  \""@ + line + "\""@,
    ]
}

/// Law: the status report has six lines, and each stat line shows that
/// stat's own value: the label, then the pet's value in decimal,
/// right-aligned in three columns; the first line names the pet, its level
/// and its experience out of a level's worth; the last quotes what it says.
pub proof fn status_lines_show_the_pets_values(p: Pet, line: Seq<char>)
    ensures
        status_lines_of(p, line).len() == 6,
        status_lines_of(p, line)[0] == p.name@ + " - level "@ + decimal(p.level as nat) + " ("@
            + decimal(p.xp as nat) + "/"@ + decimal(100) + " xp)"@,
        status_lines_of(p, line)[1] == "  Happiness "@ + right_aligned(decimal(p.happiness as nat), 3),
        status_lines_of(p, line)[2] == "  Hunger    "@ + right_aligned(decimal(p.hunger as nat), 3),
        status_lines_of(p, line)[3] == "  Energy    "@ + right_aligned(decimal(p.energy as nat), 3),
        status_lines_of(p, line)[4] == "  Health    "@ + right_aligned(decimal(p.health as nat), 3),
        status_lines_of(p, line)[5] == "  \""@ + line + "\""@,
{
}

/// Law: only `y` and `yes` confirm a reset; in particular no answer that
/// starts with `n` (such as `n` or `no`), and no empty answer, does.
pub proof fn only_yes_confirms(w: Seq<char>)
    ensures
        is_yes_word(w) <==> (w == "y"@ || w == "yes"@),
        is_yes_word(w) ==> w.len() > 0 && w[0] == 'y',
        w.len() > 0 && w[0] == 'n' ==> !is_yes_word(w),
        w.len() == 0 ==> !is_yes_word(w),
{
    reveal_strlit("y");
    reveal_strlit("yes");
}

/// Law: ASCII lowercasing turns each capital letter into the same small
/// letter (`A` into `a`, ..., `Z` into `z`) and leaves every other character
/// as it is.
pub proof fn ascii_lower_maps_capitals_to_small_letters(c: char)
    ensures
        'A' <= c <= 'Z' ==> 'a' <= ascii_lower(c) <= 'z' && (ascii_lower(c) as u32) - ('a' as u32)
            == (c as u32) - ('A' as u32),
        !('A' <= c <= 'Z') ==> ascii_lower(c) == c,
{
}

/// Law: each of the five command words names its own command, and no other
/// word names a command.
pub proof fn command_words(w: Seq<char>)
    ensures
        command_named(w) == Some(CliCommand::Help) <==> w == "help"@,
        command_named(w) == Some(CliCommand::Status) <==> w == "status"@,
        command_named(w) == Some(CliCommand::Feed) <==> w == "feed"@,
        command_named(w) == Some(CliCommand::Play) <==> w == "play"@,
        command_named(w) == Some(CliCommand::Reset) <==> w == "reset"@,
        command_named(w) != Some(CliCommand::Interactive),
        command_named(w) is None <==> (w != "help"@ && w != "status"@ && w != "feed"@ && w
            != "play"@ && w != "reset"@),
{
    reveal_strlit("help");
    reveal_strlit("status");
    reveal_strlit("feed");
    reveal_strlit("play");
    reveal_strlit("reset");
    assert("help"@[0] != "feed"@[0] && "help"@[0] != "play"@[0] && "feed"@[0] != "play"@[0]);
    assert("help"@.len() != "status"@.len() && "help"@.len() != "reset"@.len());
    assert("status"@.len() != "feed"@.len() && "status"@.len() != "play"@.len());
    assert("status"@.len() != "reset"@.len() && "feed"@.len() != "reset"@.len());
    assert("play"@.len() != "reset"@.len());
}

/// The views of a list of strings.
pub open spec fn views(v: Seq<String>) -> Seq<Seq<char>> {
    v.map_values(|s: String| s@)
}

/// `out` is the status report of `p` with one of the lines of its mood.
pub open spec fn reports_status(p: Pet, out: Seq<Seq<char>>) -> bool {
    exists|l: &'static str| lines_of(mood_of(p)).contains(l) && out == status_lines_of(p, l@)
}

/// The report after a direct action on the command line: `done` (the pet's
/// name and what it did), a level-up line if it leveled up, then the status.
pub open spec fn action_report(
    p: Pet,
    done: Seq<char>,
    leveled: bool,
    status: Seq<Seq<char>>,
) -> Seq<Seq<char>> {
    let head = seq![p.name@ + done];
    let up = if leveled {
        seq!["Level up! "@ + p.name@ + " is now level "@ + decimal(p.level as nat) + "."@]
    } else {
        Seq::empty()
    };
    head + up + status
}

/// Whether an answer (already trimmed and lowercased) confirms a reset.
pub open spec fn is_yes_word(word: Seq<char>) -> bool {
    word == "y"@ || word == "yes"@
}

/// What `str::to_lowercase` returns for `s`: its Unicode lowercase form.
pub uninterp spec fn lowercased(s: Seq<char>) -> Seq<char>;

/// Whether every character of `s` is ASCII.
pub open spec fn all_ascii(s: Seq<char>) -> bool {
    forall|i: int| 0 <= i < s.len() ==> (s[i] as u32) < 128
}

/// `c` with an ASCII capital letter turned into its small letter.
pub open spec fn ascii_lower(c: char) -> char {
    if 0x41 <= (c as u32) <= 0x5a {
        ((c as u32) + 32) as char
    } else {
        c
    }
}

/// Calls `str::to_lowercase`. Its result depends on `s` alone and is named
/// [`lowercased`]; Unicode's case mapping is not written out here, except for
/// text that is all ASCII, where the documented mapping turns `A`..=`Z` into
/// `a`..=`z` and keeps every other character.
#[verifier::external_body]
fn to_lowercase(s: &str) -> (l: String)
    ensures
        l@ == lowercased(s@),
        all_ascii(s@) ==> l@ == s@.map_values(|c: char| ascii_lower(c)),
{
    s.to_lowercase()
}

impl CliError {
    /// The error's text, as the command line reports it.
    pub fn message(&self) -> (text: String)
        ensures
            match self {
                CliError::UnknownCommand(w) => text@ == unknown_command_text(w@),
            },
    {
        match self {
            CliError::UnknownCommand(w) => {
                let mut text = String::from_str("unknown command `");
                text.append(w.as_str());
                text.append("` (try `pet help`)");
                text
            },
        }
    }
}

/// Reads `pet <command>`: `args[0]` is the program name, `args[1]` the
/// command, if any. Words after the command are ignored.
pub fn handle_cli(args: &[String]) -> (r: Result<CliCommand, CliError>)
    ensures
        args@.len() < 2 ==> r == Ok::<CliCommand, CliError>(CliCommand::Interactive),
        args@.len() >= 2 ==> match command_named(args@[1]@) {
            Some(c) => r == Ok::<CliCommand, CliError>(c),
            None => r matches Err(CliError::UnknownCommand(w)) && w@ == args@[1]@,
        },
{
    if args.len() < 2 {
        return Ok(CliCommand::Interactive);
    }
    let word = &args[1];
    if *word == String::from_str("help") {
        Ok(CliCommand::Help)
    } else if *word == String::from_str("status") {
        Ok(CliCommand::Status)
    } else if *word == String::from_str("feed") {
        Ok(CliCommand::Feed)
    } else if *word == String::from_str("play") {
        Ok(CliCommand::Play)
    } else if *word == String::from_str("reset") {
        Ok(CliCommand::Reset)
    } else {
        Err(CliError::UnknownCommand(word.clone()))
    }
}

fn line_of(parts: &str) -> (s: String)
    ensures
        s@ == parts@,
{
    String::from_str(parts)
}

fn joined(a: &str, b: &str) -> (s: String)
    ensures
        s@ == a@ + b@,
{
    let mut s = String::from_str(a);
    s.append(b);
    s
}

/// The lines of `pet help`.
pub fn help_text() -> (lines: Vec<String>)
    ensures
        views(lines@) == help_lines_of(),
{
    let mut lines: Vec<String> = Vec::new();
    lines.push(joined("Digital Pet - ", DEFAULT_NAME));
    lines.push(line_of(""));
    lines.push(line_of("Usage:"));
    lines.push(line_of("  pet               Open interactive terminal UI"));
    lines.push(line_of("  pet status        Show pet status"));
    lines.push(joined("  pet feed          Feed ", DEFAULT_NAME));
    lines.push(joined("  pet play          Play with ", DEFAULT_NAME));
    lines.push(line_of("  pet reset         Reset pet (with confirmation)"));
    lines.push(line_of("  pet help          Show this help"));
    assert(views(lines@) =~= help_lines_of());
    lines
}

fn stat(label: &str, value: u32) -> (s: String)
    ensures
        s@ == stat_line(label@, value),
{
    let mut s = String::from_str(label);
    let v = right_align(decimal_string(value), 3);
    s.append(v.as_str());
    s
}

/// The status report of `pet`, with `line` as what the pet says.
pub fn status_lines(pet: &Pet, line: &str) -> (lines: Vec<String>)
    ensures
        views(lines@) == status_lines_of(*pet, line@),
{
    let mut head = pet.name.clone();
    head.append(" - level ");
    head.append(decimal_string(pet.level).as_str());
    head.append(" (");
    head.append(decimal_string(pet.xp).as_str());
    head.append("/");
    head.append(decimal_string(XP_PER_LEVEL).as_str());
    head.append(" xp)");
    let mut said = String::from_str("  \"");
    said.append(line);
    said.append("\"");
    let mut lines: Vec<String> = Vec::new();
    lines.push(head);
    lines.push(stat("  Happiness ", pet.happiness));
    lines.push(stat("  Hunger    ", pet.hunger));
    lines.push(stat("  Energy    ", pet.energy));
    lines.push(stat("  Health    ", pet.health));
    lines.push(said);
    assert(views(lines@) =~= status_lines_of(*pet, line@));
    lines
}

/// `pet status`: the status report, with a line of the pet's mood picked at
/// random.
pub fn cmd_status(pet: &Pet) -> (lines: Vec<String>)
    ensures
        reports_status(*pet, views(lines@)),
{
    let line = personality::message(pet);
    status_lines(pet, line)
}

/// The report after a direct action, given the status lines that end it.
fn report(pet: &Pet, done: &str, leveled: bool, status: Vec<String>) -> (lines: Vec<String>)
    ensures
        views(lines@) == action_report(*pet, done@, leveled, views(status@)),
{
    let mut lines: Vec<String> = Vec::new();
    lines.push(joined(pet.name.as_str(), done));
    if leveled {
        let mut up = String::from_str("Level up! ");
        up.append(pet.name.as_str());
        up.append(" is now level ");
        up.append(decimal_string(pet.level).as_str());
        up.append(".");
        lines.push(up);
    }
    let ghost st = status@;
    let mut status = status;
    lines.append(&mut status);
    assert(views(lines@) =~= action_report(*pet, done@, leveled, views(st)));
    lines
}

/// `pet feed` at time `now`: feeds the pet and reports it, then its status.
pub fn cmd_feed_at(pet: &mut Pet, now: Timestamp) -> (lines: Vec<String>)
    requires
        fits(PetAction::Feed, *old(pet)),
    ensures
        exists|leveled: bool, status: Seq<Seq<char>>|
            {
                &&& acted_at(PetAction::Feed, *old(pet), *final(pet), leveled, now)
                &&& reports_status(*final(pet), status)
                &&& views(lines@) == action_report(
                    *final(pet),
                    " munches happily."@,
                    leveled,
                    status,
                )
            },
{
    let leveled = pet.feed_at(now);
    let status = cmd_status(pet);
    let ghost st = views(status@);
    let lines = report(pet, " munches happily.", leveled, status);
    assert(acted(PetAction::Feed, *old(pet), *pet, leveled) && reports_status(*pet, st));
    lines
}

/// `pet feed`: feeds the pet and reports it, then its status,
/// taking the current time as the pet's last update.
pub fn cmd_feed(pet: &mut Pet) -> (lines: Vec<String>)
    requires
        fits(PetAction::Feed, *old(pet)),
    ensures
        exists|leveled: bool, status: Seq<Seq<char>>|
            {
                &&& acted(PetAction::Feed, *old(pet), *final(pet), leveled)
                &&& reports_status(*final(pet), status)
                &&& views(lines@) == action_report(
                    *final(pet),
                    " munches happily."@,
                    leveled,
                    status,
                )
            },
{
    cmd_feed_at(pet, clock::now())
}

/// `pet play` at time `now`: plays with the pet and reports it, then its status.
pub fn cmd_play_at(pet: &mut Pet, now: Timestamp) -> (lines: Vec<String>)
    requires
        fits(PetAction::Play, *old(pet)),
    ensures
        exists|leveled: bool, status: Seq<Seq<char>>|
            {
                &&& acted_at(PetAction::Play, *old(pet), *final(pet), leveled, now)
                &&& reports_status(*final(pet), status)
                &&& views(lines@) == action_report(
                    *final(pet),
                    " plays and gets a little tired."@,
                    leveled,
                    status,
                )
            },
{
    let leveled = pet.play_at(now);
    let status = cmd_status(pet);
    let ghost st = views(status@);
    let lines = report(pet, " plays and gets a little tired.", leveled, status);
    assert(acted(PetAction::Play, *old(pet), *pet, leveled) && reports_status(*pet, st));
    lines
}

/// `pet play`: plays with the pet and reports it, then its status,
/// taking the current time as the pet's last update.
pub fn cmd_play(pet: &mut Pet) -> (lines: Vec<String>)
    requires
        fits(PetAction::Play, *old(pet)),
    ensures
        exists|leveled: bool, status: Seq<Seq<char>>|
            {
                &&& acted(PetAction::Play, *old(pet), *final(pet), leveled)
                &&& reports_status(*final(pet), status)
                &&& views(lines@) == action_report(
                    *final(pet),
                    " plays and gets a little tired."@,
                    leveled,
                    status,
                )
            },
{
    cmd_play_at(pet, clock::now())
}

/// Whether an answer, already trimmed and lowercased, is `y` or `yes`.
pub fn is_yes(word: &str) -> (yes: bool)
    ensures
        yes == is_yes_word(word@),
{
    let w = String::from_str(word);
    w == String::from_str("y") || w == String::from_str("yes")
}

/// Whether the answer to the reset question confirms it: `y` or `yes` in any
/// case, with whitespace around it ignored.
pub fn reset_confirmed(answer: &str) -> (yes: bool)
    ensures
        yes == is_yes_word(lowercased(trimmed(answer@))),
        all_ascii(trimmed(answer@)) ==> yes == is_yes_word(
            trimmed(answer@).map_values(|c: char| ascii_lower(c)),
        ),
{
    let lower = to_lowercase(trim(answer));
    is_yes(lower.as_str())
}

} // verus!
