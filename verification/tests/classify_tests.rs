use killfeed::classify::{
    handle_death, handle_event, handle_item_added, handle_revive, handle_vehicle_destroy,
    weapon_set_contains, Category, BASTION_ITEM_ID,
};
use killfeed::event::{Death, Event, GainExperience, ItemAdded, PlayerLogin, PlayerLogout,
    VehicleDestroy};

fn kill(subject: u64, attacker: u64, headshot: bool, t: u32) -> Death {
    Death { character_id: subject, attacker_character_id: attacker, is_headshot: headshot, timestamp: t }
}

#[test]
fn death_of_tracked_character_is_death() {
    let mut count: u16 = 3;
    let mut last: u32 = 500;
    let r = handle_death(&kill(42, 7, false, 1000), 42, &mut count, &mut last);
    assert_eq!(r, Some(Category::Death));
    assert_eq!((count, last), (3, 500));
}

#[test]
fn death_by_own_hand_is_suicide() {
    let mut count: u16 = 0;
    let mut last: u32 = 0;
    let r = handle_death(&kill(42, 42, false, 1000), 42, &mut count, &mut last);
    assert_eq!(r, Some(Category::Suicide));
    assert_eq!((count, last), (0, 0));
}

#[test]
fn unrelated_death_is_nothing() {
    let mut count: u16 = 0;
    let mut last: u32 = 0;
    let r = handle_death(&kill(7, 9, true, 1000), 42, &mut count, &mut last);
    assert_eq!(r, None);
}

#[test]
fn first_kill_is_kill() {
    let mut count: u16 = 0;
    let mut last: u32 = 0;
    let r = handle_death(&kill(7, 42, false, 1000), 42, &mut count, &mut last);
    assert_eq!(r, Some(Category::Kill));
    assert_eq!((count, last), (1, 1000));
}

#[test]
fn first_kill_headshot_is_kill_headshot() {
    let mut count: u16 = 0;
    let mut last: u32 = 0;
    let r = handle_death(&kill(7, 42, true, 1000), 42, &mut count, &mut last);
    assert_eq!(r, Some(Category::KillHeadshot));
}

#[test]
fn headshot_does_not_mark_second_kill() {
    let mut count: u16 = 1;
    let mut last: u32 = 1000;
    let r = handle_death(&kill(8, 42, true, 1005), 42, &mut count, &mut last);
    assert_eq!(r, Some(Category::KillDouble));
    assert_eq!((count, last), (2, 1005));
}

#[test]
fn streak_labels_up_to_penta() {
    let mut count: u16 = 0;
    let mut last: u32 = 0;
    let expected = [
        Category::Kill,
        Category::KillDouble,
        Category::KillTriple,
        Category::KillQuad,
        Category::KillPenta,
        Category::KillPenta,
    ];
    for (n, want) in expected.iter().enumerate() {
        let t = 1000 + 5 * n as u32;
        let r = handle_death(&kill(7, 42, false, t), 42, &mut count, &mut last);
        assert_eq!(r, Some(*want));
    }
    assert_eq!(count, 6);
}

#[test]
fn streak_resets_after_decay_window() {
    let mut count: u16 = 4;
    let mut last: u32 = 1000;
    let r = handle_death(&kill(7, 42, false, 1025), 42, &mut count, &mut last);
    assert_eq!(r, Some(Category::Kill));
    assert_eq!((count, last), (1, 1025));
}

#[test]
fn gap_of_exactly_twelve_seconds_resets() {
    let mut count: u16 = 2;
    let mut last: u32 = 1000;
    let r = handle_death(&kill(7, 42, false, 1012), 42, &mut count, &mut last);
    assert_eq!(r, Some(Category::Kill));
    assert_eq!(count, 1);
}

#[test]
fn gap_of_eleven_seconds_continues() {
    let mut count: u16 = 2;
    let mut last: u32 = 1000;
    let r = handle_death(&kill(7, 42, false, 1011), 42, &mut count, &mut last);
    assert_eq!(r, Some(Category::KillTriple));
    assert_eq!(count, 3);
}

#[test]
fn revive_roles() {
    let ge = GainExperience { character_id: 42, other_id: 7, experience_id: 7, timestamp: 0 };
    assert_eq!(handle_revive(&ge, 42), Some(Category::ReviveTeammate));
    assert_eq!(handle_revive(&ge, 7), Some(Category::GetRevived));
    assert_eq!(handle_revive(&ge, 9), None);
}

#[test]
fn vehicle_destroy_roles() {
    let own = VehicleDestroy { character_id: 42, attacker_character_id: 42, timestamp: 0 };
    assert_eq!(handle_vehicle_destroy(&own, 42), Some(Category::DestroyOwnVehicle));
    let other = VehicleDestroy { character_id: 7, attacker_character_id: 42, timestamp: 0 };
    assert_eq!(handle_vehicle_destroy(&other, 42), Some(Category::DestroyVehicle));
    let lost = VehicleDestroy { character_id: 42, attacker_character_id: 7, timestamp: 0 };
    assert_eq!(handle_vehicle_destroy(&lost, 42), None);
}

fn item(char_id: u64, item_id: u64, context: &str) -> ItemAdded {
    ItemAdded { character_id: char_id, item_id, context: context.to_string(), timestamp: 0 }
}

#[test]
fn item_added_flag_take() {
    let weapons = vec![100, 200];
    let r = handle_item_added(&item(42, 100, "CaptureTheFlag.TakeFlag"), 42, &weapons);
    assert_eq!(r, Some(Category::CtfFlagTake));
}

#[test]
fn item_added_bastion_pull() {
    let weapons: Vec<u64> = vec![];
    let r = handle_item_added(&item(42, BASTION_ITEM_ID, "GuildBankWithdrawal"), 42, &weapons);
    assert_eq!(r, Some(Category::BastionPull));
}

#[test]
fn item_added_bank_withdrawal_of_other_item_falls_through() {
    let weapons = vec![500];
    let r = handle_item_added(&item(42, 500, "GuildBankWithdrawal"), 42, &weapons);
    assert_eq!(r, Some(Category::UnlockWeapon));
}

#[test]
fn item_added_weapon_unlock_and_any_unlock() {
    let weapons = vec![100, 200];
    assert_eq!(handle_item_added(&item(42, 200, ""), 42, &weapons), Some(Category::UnlockWeapon));
    assert_eq!(handle_item_added(&item(42, 300, ""), 42, &weapons), Some(Category::UnlockAny));
}

#[test]
fn item_added_for_other_character_is_nothing() {
    let weapons = vec![100];
    assert_eq!(handle_item_added(&item(7, 100, ""), 42, &weapons), None);
}

#[test]
fn weapon_set_membership() {
    let weapons = vec![1, 5, 9];
    assert!(weapon_set_contains(&weapons, 5));
    assert!(!weapon_set_contains(&weapons, 6));
    assert!(!weapon_set_contains(&vec![], 6));
}

#[test]
fn event_classification_dispatches_by_kind() {
    let weapons: Vec<u64> = vec![];
    let mut count: u16 = 0;
    let mut last: u32 = 0;

    let login = Event::PlayerLogin(PlayerLogin { character_id: 42, timestamp: 0 });
    assert_eq!(handle_event(&login, 42, &mut count, &mut last, &weapons), Some(Category::Login));
    assert_eq!(handle_event(&login, 7, &mut count, &mut last, &weapons), None);

    let logout = Event::PlayerLogout(PlayerLogout { character_id: 42, timestamp: 0 });
    assert_eq!(handle_event(&logout, 42, &mut count, &mut last, &weapons), Some(Category::Logout));
    assert_eq!(handle_event(&logout, 7, &mut count, &mut last, &weapons), None);

    let unrecognized = Event::Unrecognized;
    assert_eq!(handle_event(&unrecognized, 42, &mut count, &mut last, &weapons), None);
}

#[test]
fn only_revive_experience_kinds_classify() {
    let weapons: Vec<u64> = vec![];
    let mut count: u16 = 0;
    let mut last: u32 = 0;
    let revive = Event::GainExperience(GainExperience {
        character_id: 42,
        other_id: 7,
        experience_id: 53,
        timestamp: 0,
    });
    assert_eq!(
        handle_event(&revive, 42, &mut count, &mut last, &weapons),
        Some(Category::ReviveTeammate)
    );
    let other_xp = Event::GainExperience(GainExperience {
        character_id: 42,
        other_id: 7,
        experience_id: 51,
        timestamp: 0,
    });
    assert_eq!(handle_event(&other_xp, 42, &mut count, &mut last, &weapons), None);
}

#[test]
fn category_labels() {
    assert_eq!(Category::Kill.label(), "kill");
    assert_eq!(Category::KillHeadshot.label(), "kill_headshot");
    assert_eq!(Category::KillPenta.label(), "kill_penta");
    assert_eq!(Category::Logout.label(), "logout");
    assert_eq!(Category::DestroyOwnVehicle.label(), "destroy_own_vehicle");
    assert_eq!(Category::BastionPull.label(), "bastion_pull");
}
