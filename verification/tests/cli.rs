use unni::cli::{cmd_feed, cmd_feed_at, cmd_play, cmd_play_at, cmd_status, handle_cli, help_text, is_yes, reset_confirmed, status_lines, CliCommand, CliError};
use unni::personality::NEUTRAL;
use unni::clock::Timestamp;
use unni::pet::Pet;

fn args(words: &[&str]) -> Vec<String> {
    words.iter().map(|w| w.to_string()).collect()
}

#[test]
fn cli_reads_commands() {
    assert_eq!(handle_cli(&args(&["pet"])), Ok(CliCommand::Interactive));
    assert_eq!(handle_cli(&args(&[])), Ok(CliCommand::Interactive));
    assert_eq!(handle_cli(&args(&["pet", "help"])), Ok(CliCommand::Help));
    assert_eq!(handle_cli(&args(&["pet", "status"])), Ok(CliCommand::Status));
    assert_eq!(handle_cli(&args(&["pet", "feed"])), Ok(CliCommand::Feed));
    assert_eq!(handle_cli(&args(&["pet", "play", "more"])), Ok(CliCommand::Play));
    assert_eq!(handle_cli(&args(&["pet", "reset"])), Ok(CliCommand::Reset));
}

#[test]
fn cli_rejects_unknown_commands() {
    let r = handle_cli(&args(&["pet", "Feed"]));
    assert_eq!(r, Err(CliError::UnknownCommand("Feed".to_string())));
    let e = handle_cli(&args(&["pet", "dance"])).unwrap_err();
    assert_eq!(e.message(), "unknown command `dance` (try `pet help`)");
}

#[test]
fn help_lists_the_commands() {
    let lines = help_text();
    assert_eq!(lines.len(), 9);
    assert_eq!(lines[0], "Digital Pet - Unni");
    assert_eq!(lines[1], "");
    assert_eq!(lines[5], "  pet feed          Feed Unni");
    assert_eq!(lines[6], "  pet play          Play with Unni");
}

#[test]
fn status_report_lines() {
    let mut pet = Pet::new("Unni".to_string());
    pet.happiness = 7;
    pet.xp = 30;
    let lines = status_lines(&pet, "Hi.");
    assert_eq!(
        lines,
        vec![
            "Unni - level 1 (30/100 xp)",
            "  Happiness   7",
            "  Hunger     50",
            "  Energy     80",
            "  Health    100",
            "  \"Hi.\"",
        ]
    );
}

#[test]
fn cmd_status_uses_a_mood_line() {
    let pet = Pet::new("Unni".to_string());
    let lines = cmd_status(&pet);
    assert_eq!(lines.len(), 6);
    let said = &lines[5];
    let inner = &said[3..said.len() - 1];
    assert!(NEUTRAL.contains(&inner));
}

#[test]
fn cmd_feed_reports_and_changes_the_pet() {
    let mut pet = Pet::new("Unni".to_string());
    let lines = cmd_feed(&mut pet);
    assert_eq!(pet.hunger, 20);
    assert_eq!(lines[0], "Unni munches happily.");
    assert_eq!(lines[1], "Unni - level 1 (0/100 xp)");
    assert_eq!(lines.len(), 7);
}

#[test]
fn cmd_play_announces_level_up() {
    let mut pet = Pet::new("Unni".to_string());
    pet.xp = 90;
    let lines = cmd_play(&mut pet);
    assert_eq!(lines[0], "Unni plays and gets a little tired.");
    assert_eq!(lines[1], "Level up! Unni is now level 2.");
    assert_eq!(lines[2], "Unni - level 2 (0/100 xp)");
    assert_eq!(lines.len(), 8);
}

#[test]
fn reset_needs_yes() {
    assert!(reset_confirmed("y\n"));
    assert!(reset_confirmed("  YES \n"));
    assert!(reset_confirmed("Yes"));
    assert!(reset_confirmed("\u{3000}y\u{a0}"));
    assert!(!reset_confirmed("ｙｅｓ"));
    assert!(!reset_confirmed("\n"));
    assert!(!reset_confirmed("no\n"));
    assert!(!reset_confirmed("yess"));
    assert!(is_yes("yes"));
    assert!(!is_yes("YES"));
    assert!(!is_yes(" y"));
}

#[test]
fn timed_commands_record_the_time() {
    let t = Timestamp { secs: 42, nanos: 0 };
    let mut pet = Pet::new_at("Unni".to_string(), Timestamp { secs: 1, nanos: 0 });
    let lines = cmd_feed_at(&mut pet, t);
    assert_eq!(lines[0], "Unni munches happily.");
    assert_eq!(pet.last_updated, t);
    let u = Timestamp { secs: 43, nanos: 0 };
    cmd_play_at(&mut pet, u);
    assert_eq!(pet.last_updated, u);
    assert_eq!(pet.created_at.secs, 1);
}
