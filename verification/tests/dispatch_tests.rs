use killfeed::dispatch::{dispatch_targets, relevant_ids};
use killfeed::event::{
    get_attacker_id, get_character_id, get_other_id, Death, Event, GainExperience, PlayerLogin,
    VehicleDestroy,
};
use killfeed::registry::SubscriptionRegistry;

fn death(subject: u64, attacker: u64, t: u32) -> Event {
    Event::Death(Death {
        character_id: subject,
        attacker_character_id: attacker,
        is_headshot: false,
        timestamp: t,
    })
}

#[test]
fn role_extraction_by_kind() {
    let e = death(1, 2, 0);
    assert_eq!(get_character_id(&e), Some(1));
    assert_eq!(get_attacker_id(&e), Some(2));
    assert_eq!(get_other_id(&e), None);

    let ge = Event::GainExperience(GainExperience {
        character_id: 3,
        other_id: 4,
        experience_id: 7,
        timestamp: 0,
    });
    assert_eq!(get_character_id(&ge), Some(3));
    assert_eq!(get_attacker_id(&ge), None);
    assert_eq!(get_other_id(&ge), Some(4));

    let login = Event::PlayerLogin(PlayerLogin { character_id: 5, timestamp: 0 });
    assert_eq!(get_character_id(&login), Some(5));
    assert_eq!(get_attacker_id(&login), None);

    assert_eq!(get_character_id(&Event::Unrecognized), None);
    assert_eq!(get_attacker_id(&Event::Unrecognized), None);
    assert_eq!(get_other_id(&Event::Unrecognized), None);
}

#[test]
fn relevant_ids_cover_subject_and_attacker() {
    let ids = relevant_ids(&death(1, 2, 0));
    assert_eq!(ids.len(), 2);
    assert!(ids.contains(&1));
    assert!(ids.contains(&2));
}

#[test]
fn relevant_ids_deduplicate_a_suicide() {
    let ids = relevant_ids(&death(42, 42, 0));
    assert_eq!(ids, vec![42]);
}

#[test]
fn relevant_ids_of_unrecognized_event_are_empty() {
    assert!(relevant_ids(&Event::Unrecognized).is_empty());
}

#[test]
fn events_are_delivered_to_each_matching_session() {
    let mut registry = SubscriptionRegistry::new();
    registry.register(42, 420).unwrap();
    registry.register(99, 990).unwrap();
    let targets = dispatch_targets(&death(99, 42, 0), &registry);
    assert_eq!(targets.len(), 2);
    assert!(targets.contains(&(99, 990)));
    assert!(targets.contains(&(42, 420)));
}

#[test]
fn events_are_not_delivered_to_untracked_ids() {
    let mut registry = SubscriptionRegistry::new();
    registry.register(42, 420).unwrap();
    let targets = dispatch_targets(&death(99, 42, 0), &registry);
    assert_eq!(targets, vec![(42, 420)]);
}

#[test]
fn a_suicide_is_delivered_exactly_once() {
    let mut registry = SubscriptionRegistry::new();
    registry.register(42, 420).unwrap();
    let targets = dispatch_targets(&death(42, 42, 0), &registry);
    assert_eq!(targets, vec![(42, 420)]);
}

#[test]
fn revive_is_delivered_to_the_other_party_too() {
    let mut registry = SubscriptionRegistry::new();
    registry.register(4, 40).unwrap();
    let ge = Event::GainExperience(GainExperience {
        character_id: 3,
        other_id: 4,
        experience_id: 7,
        timestamp: 0,
    });
    let targets = dispatch_targets(&ge, &registry);
    assert_eq!(targets, vec![(4, 40)]);
}

#[test]
fn irrelevant_event_is_delivered_nowhere() {
    let mut registry = SubscriptionRegistry::new();
    registry.register(42, 420).unwrap();
    let vd = Event::VehicleDestroy(VehicleDestroy {
        character_id: 7,
        attacker_character_id: 8,
        timestamp: 0,
    });
    assert!(dispatch_targets(&vd, &registry).is_empty());
}
