use unni::app::{apply_action, apply_action_at, key_command, template, App, Key, KeyCommand, KeyPress};
use unni::clock::Timestamp;
use unni::pet::{Pet, PetAction};

fn press(c: char) -> KeyPress {
    KeyPress { key: Key::Char(c), ctrl: false }
}

#[test]
fn new_app_is_running_without_message() {
    let app = App::new(Pet::new("Unni".to_string()));
    assert!(app.running);
    assert!(app.last_message.is_none());
    assert!(!app.show_info);
}

#[test]
fn quit_stops_the_app() {
    let mut app = App::new(Pet::new("Unni".to_string()));
    app.quit();
    assert!(!app.running);
}

#[test]
fn keys_map_to_commands() {
    assert_eq!(key_command(press('q')), KeyCommand::Quit);
    assert_eq!(key_command(press('Q')), KeyCommand::Quit);
    assert_eq!(key_command(KeyPress { key: Key::Esc, ctrl: false }), KeyCommand::Quit);
    assert_eq!(key_command(KeyPress { key: Key::Char('c'), ctrl: true }), KeyCommand::Quit);
    assert_eq!(key_command(press('c')), KeyCommand::Ignore);
    assert_eq!(key_command(KeyPress { key: Key::Char('C'), ctrl: true }), KeyCommand::Ignore);
    assert_eq!(key_command(press('f')), KeyCommand::Act(PetAction::Feed));
    assert_eq!(key_command(KeyPress { key: Key::Char('F'), ctrl: true }), KeyCommand::Act(PetAction::Feed));
    assert_eq!(key_command(press('P')), KeyCommand::Act(PetAction::Play));
    assert_eq!(key_command(press('s')), KeyCommand::Act(PetAction::Sleep));
    assert_eq!(key_command(press('A')), KeyCommand::Act(PetAction::Pet));
    assert_eq!(key_command(press('i')), KeyCommand::ToggleInfo);
    assert_eq!(key_command(press('x')), KeyCommand::Ignore);
    assert_eq!(key_command(KeyPress { key: Key::Other, ctrl: true }), KeyCommand::Ignore);
}

#[test]
fn feed_key_feeds_and_reports() {
    let mut app = App::new(Pet::new("Unni".to_string()));
    assert!(app.handle_key(press('f')));
    assert_eq!(app.pet.hunger, 20);
    assert_eq!(app.last_message.as_deref(), Some("Unni munches happily!"));
    assert!(app.running);
}

#[test]
fn each_action_has_its_feedback() {
    let expected = [
        ('p', "Mochi had fun playing!"),
        ('s', "Mochi wakes up feeling rested."),
        ('a', "Mochi purrs contentedly."),
    ];
    for (c, text) in expected {
        let mut app = App::new(Pet::new("Mochi".to_string()));
        assert!(app.handle_key(press(c)));
        assert_eq!(app.last_message.as_deref(), Some(text));
    }
}

#[test]
fn level_up_is_announced() {
    let mut app = App::new(Pet::new("Unni".to_string()));
    app.pet.xp = 90;
    assert!(app.handle_key(press('p')));
    assert_eq!(app.pet.level, 2);
    assert_eq!(app.last_message.as_deref(), Some("Unni had fun playing! Level up! Now level 2."));
}

#[test]
fn info_toggles_and_quit_keys_do_not_save() {
    let mut app = App::new(Pet::new("Unni".to_string()));
    assert!(!app.handle_key(press('i')));
    assert!(app.show_info);
    assert!(!app.handle_key(press('I')));
    assert!(!app.show_info);
    assert!(!app.handle_key(press('z')));
    assert!(app.running);
    assert!(!app.handle_key(press('q')));
    assert!(!app.running);
    assert_eq!(app.pet.hunger, 50);
}

#[test]
fn apply_action_fills_in_the_name() {
    let mut app = App::new(Pet::new("Mochi".to_string()));
    let leveled = apply_action(&mut app, PetAction::Pet, "{name} and {name}!");
    assert!(!leveled);
    assert_eq!(app.last_message.as_deref(), Some("Mochi and Mochi!"));
    assert_eq!(template(PetAction::Feed), "{name} munches happily!");
}

#[test]
fn message_line_prefers_feedback() {
    let mut app = App::new(Pet::new("Unni".to_string()));
    let quoted = app.message_line();
    assert!(quoted.starts_with('"') && quoted.ends_with('"'));
    let inner = &quoted[1..quoted.len() - 1];
    assert!(unni::personality::NEUTRAL.contains(&inner));
    app.handle_key(press('a'));
    assert_eq!(app.message_line(), "Unni purrs contentedly.");
}

#[test]
fn timed_key_handling_records_the_time() {
    let t = Timestamp { secs: 77, nanos: 7 };
    let mut app = App::new(Pet::new_at("Unni".to_string(), Timestamp { secs: 1, nanos: 0 }));
    assert!(!app.handle_key_at(press('i'), t));
    assert_eq!(app.pet.last_updated.secs, 1);
    assert!(app.handle_key_at(press('s'), t));
    assert_eq!(app.pet.last_updated, t);
    let u = Timestamp { secs: 88, nanos: 8 };
    apply_action_at(&mut app, PetAction::Play, "{name}!", u);
    assert_eq!(app.pet.last_updated, u);
    assert_eq!(app.last_message.as_deref(), Some("Unni!"));
}
