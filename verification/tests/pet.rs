use unni::clock::Timestamp;
use unni::pet::{load_or_hatch, Pet, PetAction, DEFAULT_NAME, XP_PER_LEVEL};

#[test]
fn test_feed() {
    let mut pet = Pet::new("Mochi".to_string());
    pet.hunger = 100;
    pet.feed();
    assert_eq!(pet.hunger, 70);
    assert!(pet.happiness > 50);
}

#[test]
fn test_play() {
    let mut pet = Pet::new("Mochi".to_string());
    let initial_energy = pet.energy;
    pet.play();
    assert!(pet.happiness > 50);
    assert!(pet.energy < initial_energy);
    assert!(pet.xp > 0);
}

#[test]
fn test_stats_clamped() {
    let mut pet = Pet::new("Mochi".to_string());
    pet.happiness = 1000;
    pet.clamp_stats();
    assert_eq!(pet.happiness, 100);
}

#[test]
fn new_pet_has_default_stats() {
    let pet = Pet::new("Mochi".to_string());
    assert_eq!(pet.name, "Mochi");
    assert_eq!(
        (pet.happiness, pet.hunger, pet.energy, pet.health, pet.level, pet.xp),
        (50, 50, 80, 100, 1, 0)
    );
    assert_eq!(pet.created_at, pet.last_updated);
    assert!(pet.created_at.secs > 0);
}

#[test]
fn feed_exact_values() {
    let mut pet = Pet::new("Mochi".to_string());
    assert!(!pet.feed());
    assert_eq!((pet.hunger, pet.happiness), (20, 55));
    pet.hunger = 10;
    pet.happiness = 98;
    pet.feed();
    assert_eq!((pet.hunger, pet.happiness), (0, 100));
}

#[test]
fn play_exact_values() {
    let mut pet = Pet::new("Mochi".to_string());
    assert!(!pet.play());
    assert_eq!((pet.happiness, pet.energy, pet.hunger, pet.xp, pet.level), (70, 65, 55, 10, 1));
    pet.energy = 10;
    pet.hunger = 99;
    pet.happiness = 90;
    pet.play();
    assert_eq!((pet.happiness, pet.energy, pet.hunger), (100, 0, 100));
}

#[test]
fn sleep_exact_values() {
    let mut pet = Pet::new("Mochi".to_string());
    assert!(!pet.sleep());
    assert_eq!((pet.energy, pet.hunger, pet.happiness), (100, 60, 50));
    pet.energy = 30;
    pet.sleep();
    assert_eq!((pet.energy, pet.hunger), (70, 70));
}

#[test]
fn pet_exact_values() {
    let mut pet = Pet::new("Mochi".to_string());
    assert!(!pet.pet());
    assert_eq!((pet.happiness, pet.hunger, pet.energy), (60, 50, 80));
    pet.happiness = 95;
    pet.pet();
    assert_eq!(pet.happiness, 100);
}

#[test]
fn play_levels_up_every_ten_plays() {
    let mut pet = Pet::new("Mochi".to_string());
    for i in 1..10 {
        assert!(!pet.play());
        assert_eq!(pet.xp, 10 * i);
        pet.energy = 80;
    }
    assert!(pet.play());
    assert_eq!((pet.level, pet.xp), (2, 0));
    assert!(pet.xp < XP_PER_LEVEL);
}

#[test]
fn level_up_carries_extra_experience() {
    let mut pet = Pet::new("Mochi".to_string());
    pet.xp = 95;
    assert!(pet.play());
    assert_eq!((pet.level, pet.xp), (2, 5));
}

#[test]
fn actions_keep_in_range_stats_in_range() {
    for action in [PetAction::Feed, PetAction::Play, PetAction::Sleep, PetAction::Pet] {
        for v in [0u32, 1, 50, 99, 100] {
            let mut pet = Pet::new("Mochi".to_string());
            pet.happiness = v;
            pet.hunger = v;
            pet.energy = v;
            pet.health = v;
            pet.xp = v.min(XP_PER_LEVEL - 1);
            assert!(pet.can_act(action));
            pet.act(action);
            assert!(pet.happiness <= 100 && pet.hunger <= 100 && pet.energy <= 100);
            assert_eq!(pet.health, v);
            assert!(pet.level >= 1 && pet.xp < XP_PER_LEVEL);
        }
    }
}

#[test]
fn can_act_refuses_overflowing_actions() {
    let mut pet = Pet::new("Mochi".to_string());
    pet.happiness = u32::MAX - 4;
    assert!(!pet.can_act(PetAction::Feed));
    assert!(!pet.can_act(PetAction::Pet));
    assert!(pet.can_act(PetAction::Sleep));
    pet.happiness = 50;
    pet.xp = 95;
    pet.level = u32::MAX;
    assert!(!pet.can_act(PetAction::Play));
    pet.xp = 0;
    assert!(pet.can_act(PetAction::Play));
}

#[test]
fn clamp_changes_only_out_of_range_stats() {
    let mut pet = Pet::new("Mochi".to_string());
    pet.hunger = 101;
    pet.energy = 7;
    pet.health = u32::MAX;
    pet.clamp_stats();
    assert_eq!((pet.happiness, pet.hunger, pet.energy, pet.health), (50, 100, 7, 100));
}

#[test]
fn status_message_follows_its_rules() {
    let mut pet = Pet::new("Mochi".to_string());
    pet.happiness = 71;
    assert_eq!(pet.get_status_message(), "I'm feeling great!");
    pet.happiness = 29;
    assert_eq!(pet.get_status_message(), "I'm sad...");
    pet.happiness = 50;
    pet.hunger = 81;
    assert_eq!(pet.get_status_message(), "I'm so hungry!");
    pet.hunger = 50;
    pet.energy = 19;
    assert_eq!(pet.get_status_message(), "I need sleep...");
    pet.energy = 20;
    assert_eq!(pet.get_status_message(), "I'm doing okay.");
}

#[test]
fn load_or_hatch_keeps_a_saved_pet() {
    let mut saved = Pet::new("Mochi".to_string());
    saved.xp = 42;
    let (pet, fresh) = load_or_hatch(Some(saved.clone()), Timestamp { secs: 9, nanos: 0 });
    assert_eq!(pet, saved);
    assert!(!fresh);
}

#[test]
fn load_or_hatch_hatches_a_default_pet() {
    let born = Timestamp { secs: 1_700_000_000, nanos: 5 };
    let (pet, fresh) = load_or_hatch(None, born);
    assert!(fresh);
    assert_eq!((pet.created_at, pet.last_updated), (born, born));
    assert_eq!(pet.name, DEFAULT_NAME);
    assert_eq!(pet.name, "Unni");
    assert_eq!((pet.level, pet.xp, pet.health), (1, 0, 100));
}

#[test]
fn actions_record_the_time_given() {
    let born = Timestamp { secs: 100, nanos: 1 };
    let mut pet = Pet::new_at("Mochi".to_string(), born);
    assert_eq!((pet.created_at, pet.last_updated), (born, born));
    let times = [
        Timestamp { secs: 200, nanos: 0 },
        Timestamp { secs: 300, nanos: 2 },
        Timestamp { secs: 400, nanos: 3 },
        Timestamp { secs: 500, nanos: 4 },
    ];
    pet.feed_at(times[0]);
    assert_eq!(pet.last_updated, times[0]);
    pet.play_at(times[1]);
    assert_eq!(pet.last_updated, times[1]);
    pet.sleep_at(times[2]);
    assert_eq!(pet.last_updated, times[2]);
    pet.pet_at(times[3]);
    assert_eq!(pet.last_updated, times[3]);
    pet.act_at(PetAction::Feed, born);
    assert_eq!(pet.last_updated, born);
    assert_eq!(pet.created_at, born);
}

#[test]
fn actions_without_a_time_read_the_clock() {
    let mut pet = Pet::new_at("Mochi".to_string(), Timestamp { secs: 1, nanos: 0 });
    pet.feed();
    assert!(pet.last_updated.secs > 1);
    assert_eq!(pet.created_at.secs, 1);
}
