//! Per-event classification: maps an event, the tracked character id and the
//! current kill-streak state to at most one semantic category, exactly as the
//! session announces it.
//!
//! The kill-streak rule: a qualifying kill first updates the streak count
//! (increment inside the decay window, reset to 1 outside it), then the
//! updated count selects the label; a headshot only distinguishes a streak's
//! first kill.

use crate::event::{Death, Event, GainExperience, ItemAdded, VehicleDestroy};
use vstd::prelude::*;

verus! {

/// A kill streak decays after this many seconds without a further kill.
pub const KILLING_SPREE_INTERVAL: u64 = 12;

/// Experience kind awarded for reviving a teammate.
pub const REVIVE_EXPERIENCE_ID: u16 = 7;

/// Experience kind awarded for reviving a squad member.
pub const SQUAD_REVIVE_EXPERIENCE_ID: u16 = 53;

/// Item granted by the guild-bank withdrawal that pulls a bastion.
pub const BASTION_ITEM_ID: u64 = 6008913;

/// The semantic category a classified event is announced under.
#[derive(Clone, Copy, Debug, PartialEq, Eq, Structural)]
pub enum Category {
    Kill,
    KillHeadshot,
    KillDouble,
    KillTriple,
    KillQuad,
    KillPenta,
    Death,
    Suicide,
    Login,
    Logout,
    ReviveTeammate,
    GetRevived,
    DestroyVehicle,
    DestroyOwnVehicle,
    CtfFlagTake,
    BastionPull,
    UnlockWeapon,
    UnlockAny,
}

impl Category {
    /// The tag of this category, as the voicepack directories spell it.
    pub open spec fn spec_label(self) -> Seq<char> {
        match self {
            Category::Kill => "kill"@,
            Category::KillHeadshot => "kill_headshot"@,
            Category::KillDouble => "kill_double"@,
            Category::KillTriple => "kill_triple"@,
            Category::KillQuad => "kill_quad"@,
            Category::KillPenta => "kill_penta"@,
            Category::Death => "death"@,
            Category::Suicide => "suicide"@,
            Category::Login => "login"@,
            Category::Logout => "logout"@,
            Category::ReviveTeammate => "revive_teammate"@,
            Category::GetRevived => "get_revived"@,
            Category::DestroyVehicle => "destroy_vehicle"@,
            Category::DestroyOwnVehicle => "destroy_own_vehicle"@,
            Category::CtfFlagTake => "ctf_flag_take"@,
            Category::BastionPull => "bastion_pull"@,
            Category::UnlockWeapon => "unlock_weapon"@,
            Category::UnlockAny => "unlock_any"@,
        }
    }

    /// The tag of this category, used to name its voicepack track list.
    pub fn label(&self) -> (s: &'static str)
        ensures
            s@ == self.spec_label(),
    {
        match self {
            Category::Kill => "kill",
            Category::KillHeadshot => "kill_headshot",
            Category::KillDouble => "kill_double",
            Category::KillTriple => "kill_triple",
            Category::KillQuad => "kill_quad",
            Category::KillPenta => "kill_penta",
            Category::Death => "death",
            Category::Suicide => "suicide",
            Category::Login => "login",
            Category::Logout => "logout",
            Category::ReviveTeammate => "revive_teammate",
            Category::GetRevived => "get_revived",
            Category::DestroyVehicle => "destroy_vehicle",
            Category::DestroyOwnVehicle => "destroy_own_vehicle",
            Category::CtfFlagTake => "ctf_flag_take",
            Category::BastionPull => "bastion_pull",
            Category::UnlockWeapon => "unlock_weapon",
            Category::UnlockAny => "unlock_any",
        }
    }
}

/// A kill at `t` continues the streak whose last counted kill was at `last`:
/// the previous kill must lie within the decay window before `t`.
pub open spec fn spree_continues(last: u32, t: u32) -> bool {
    last + KILLING_SPREE_INTERVAL > t
}

/// The streak count after one more qualifying kill: one more than before
/// inside the window (saturating), a fresh streak of one outside it.
pub open spec fn next_spree_count(count: u16, continues: bool) -> u16 {
    if continues {
        if count == u16::MAX {
            count
        } else {
            (count + 1) as u16
        }
    } else {
        1u16
    }
}

/// The label the updated streak count earns. A headshot is only announced
/// on a streak's first kill.
pub open spec fn kill_category(count: u16, headshot: bool) -> Category {
    if count <= 1 {
        if headshot {
            Category::KillHeadshot
        } else {
            Category::Kill
        }
    } else if count == 2 {
        Category::KillDouble
    } else if count == 3 {
        Category::KillTriple
    } else if count == 4 {
        Category::KillQuad
    } else {
        Category::KillPenta
    }
}

/// Classification of a death: the tracked character dying is a `Death`
/// (or `Suicide` by its own hand); the tracked character killing someone
/// else earns a streak label; other deaths earn nothing.
pub open spec fn spec_handle_death(d: Death, char_id: u64, count: u16, last: u32) -> Option<
    Category,
> {
    if d.character_id == char_id {
        if d.character_id == d.attacker_character_id {
            Some(Category::Suicide)
        } else {
            Some(Category::Death)
        }
    } else if d.attacker_character_id == char_id {
        Some(
            kill_category(
                next_spree_count(count, spree_continues(last, d.timestamp)),
                d.is_headshot,
            ),
        )
    } else {
        None
    }
}

/// The streak state after a death: updated only by a qualifying kill
/// (the tracked character killed someone else), untouched otherwise.
pub open spec fn spec_death_spree(d: Death, char_id: u64, count: u16, last: u32) -> (u16, u32) {
    if d.attacker_character_id == char_id && d.character_id != char_id {
        (next_spree_count(count, spree_continues(last, d.timestamp)), d.timestamp)
    } else {
        (count, last)
    }
}

/// Classifies a death event and updates the streak state in place.
pub fn handle_death(death: &Death, char_id: u64, spree_count: &mut u16, spree_timestamp: &mut u32)
    -> (r: Option<Category>)
    ensures
        r == spec_handle_death(*death, char_id, *old(spree_count), *old(spree_timestamp)),
        (*final(spree_count), *final(spree_timestamp)) == spec_death_spree(
            *death,
            char_id,
            *old(spree_count),
            *old(spree_timestamp),
        ),
{
    if death.character_id == char_id {
        if death.character_id == death.attacker_character_id {
            Some(Category::Suicide)
        } else {
            Some(Category::Death)
        }
    } else if death.attacker_character_id == char_id {
        let continues = *spree_timestamp as u64 + KILLING_SPREE_INTERVAL > death.timestamp as u64;
        if continues {
            if *spree_count < u16::MAX {
                *spree_count = *spree_count + 1;
            }
        } else {
            *spree_count = 1;
        }
        *spree_timestamp = death.timestamp;
        let category = if *spree_count <= 1 {
            if death.is_headshot {
                Category::KillHeadshot
            } else {
                Category::Kill
            }
        } else if *spree_count == 2 {
            Category::KillDouble
        } else if *spree_count == 3 {
            Category::KillTriple
        } else if *spree_count == 4 {
            Category::KillQuad
        } else {
            Category::KillPenta
        };
        Some(category)
    } else {
        None
    }
}

/// Classification of a revive experience gain: the tracked character is
/// either the reviver or the revived other party.
pub open spec fn spec_handle_revive(ge: GainExperience, char_id: u64) -> Option<Category> {
    if ge.character_id == char_id {
        Some(Category::ReviveTeammate)
    } else if ge.other_id == char_id {
        Some(Category::GetRevived)
    } else {
        None
    }
}

/// Classifies a revive experience gain.
pub fn handle_revive(ge: &GainExperience, char_id: u64) -> (r: Option<Category>)
    ensures
        r == spec_handle_revive(*ge, char_id),
{
    if ge.character_id == char_id {
        Some(Category::ReviveTeammate)
    } else if ge.other_id == char_id {
        Some(Category::GetRevived)
    } else {
        None
    }
}

/// Classification of a vehicle loss: the tracked character destroying its
/// own vehicle or someone else's; losing one's vehicle to another earns
/// nothing.
pub open spec fn spec_handle_vehicle_destroy(vd: VehicleDestroy, char_id: u64) -> Option<
    Category,
> {
    if vd.character_id == char_id && vd.character_id == vd.attacker_character_id {
        Some(Category::DestroyOwnVehicle)
    } else if vd.attacker_character_id == char_id {
        Some(Category::DestroyVehicle)
    } else {
        None
    }
}

/// Classifies a vehicle-destroy event.
pub fn handle_vehicle_destroy(vd: &VehicleDestroy, char_id: u64) -> (r: Option<Category>)
    ensures
        r == spec_handle_vehicle_destroy(*vd, char_id),
{
    if vd.character_id == char_id && vd.character_id == vd.attacker_character_id {
        Some(Category::DestroyOwnVehicle)
    } else if vd.attacker_character_id == char_id {
        Some(Category::DestroyVehicle)
    } else {
        None
    }
}

/// The item-grant context that marks taking the flag in capture-the-flag.
pub open spec fn ctf_take_context() -> Seq<char> {
    "CaptureTheFlag.TakeFlag"@
}

/// The item-grant context that marks a guild-bank withdrawal.
pub open spec fn bank_withdrawal_context() -> Seq<char> {
    "GuildBankWithdrawal"@
}

/// Classification of an item grant to the tracked character: a flag take,
/// a bastion pull, a weapon unlock (the item id is in the supplied weapon
/// set) or any other unlock.
pub open spec fn spec_handle_item_added(ia: ItemAdded, char_id: u64, weapons: Seq<u64>) -> Option<
    Category,
> {
    if ia.character_id == char_id {
        if ia.context@ == ctf_take_context() {
            Some(Category::CtfFlagTake)
        } else if ia.context@ == bank_withdrawal_context() && ia.item_id == BASTION_ITEM_ID {
            Some(Category::BastionPull)
        } else if weapons.contains(ia.item_id) {
            Some(Category::UnlockWeapon)
        } else {
            Some(Category::UnlockAny)
        }
    } else {
        None
    }
}

/// Whether an item id belongs to the externally supplied weapon-id set.
pub fn weapon_set_contains(weapon_ids: &Vec<u64>, item_id: u64) -> (r: bool)
    ensures
        r == weapon_ids@.contains(item_id),
{
    let mut i: usize = 0;
    while i < weapon_ids.len()
        invariant
            i <= weapon_ids@.len(),
            forall|j: int| 0 <= j < i ==> weapon_ids@[j] != item_id,
        decreases weapon_ids@.len() - i,
    {
        if weapon_ids[i] == item_id {
            return true;
        }
        i = i + 1;
    }
    false
}

/// Classifies an item grant against the supplied weapon-id set.
pub fn handle_item_added(ia: &ItemAdded, char_id: u64, weapon_ids: &Vec<u64>) -> (r: Option<
    Category,
>)
    ensures
        r == spec_handle_item_added(*ia, char_id, weapon_ids@),
{
    if ia.character_id == char_id {
        let ctf: String = "CaptureTheFlag.TakeFlag".to_owned();
        let withdrawal: String = "GuildBankWithdrawal".to_owned();
        if ia.context == ctf {
            Some(Category::CtfFlagTake)
        } else if ia.context == withdrawal && ia.item_id == BASTION_ITEM_ID {
            Some(Category::BastionPull)
        } else if weapon_set_contains(weapon_ids, ia.item_id) {
            Some(Category::UnlockWeapon)
        } else {
            Some(Category::UnlockAny)
        }
    } else {
        None
    }
}

/// Classification of any event for the tracked character: revives only
/// count for the two revive experience kinds, logins and logouts only for
/// the tracked character itself, and unrecognized kinds earn nothing.
pub open spec fn spec_handle_event(
    e: Event,
    char_id: u64,
    count: u16,
    last: u32,
    weapons: Seq<u64>,
) -> Option<Category> {
    match e {
        Event::GainExperience(ge) => {
            if ge.experience_id == REVIVE_EXPERIENCE_ID || ge.experience_id
                == SQUAD_REVIVE_EXPERIENCE_ID {
                spec_handle_revive(ge, char_id)
            } else {
                None
            }
        },
        Event::Death(d) => spec_handle_death(d, char_id, count, last),
        Event::VehicleDestroy(vd) => spec_handle_vehicle_destroy(vd, char_id),
        Event::PlayerLogin(l) => if l.character_id == char_id {
            Some(Category::Login)
        } else {
            None
        },
        Event::PlayerLogout(l) => if l.character_id == char_id {
            Some(Category::Logout)
        } else {
            None
        },
        Event::ItemAdded(ia) => spec_handle_item_added(ia, char_id, weapons),
        _ => None,
    }
}

/// The streak state after any event: only a death can move it.
pub open spec fn spec_event_spree(e: Event, char_id: u64, count: u16, last: u32) -> (u16, u32) {
    match e {
        Event::Death(d) => spec_death_spree(d, char_id, count, last),
        _ => (count, last),
    }
}

/// Classifies one event for the tracked character and updates the streak
/// state in place.
pub fn handle_event(
    event: &Event,
    char_id: u64,
    spree_count: &mut u16,
    spree_timestamp: &mut u32,
    weapon_ids: &Vec<u64>,
) -> (r: Option<Category>)
    ensures
        r == spec_handle_event(
            *event,
            char_id,
            *old(spree_count),
            *old(spree_timestamp),
            weapon_ids@,
        ),
        (*final(spree_count), *final(spree_timestamp)) == spec_event_spree(
            *event,
            char_id,
            *old(spree_count),
            *old(spree_timestamp),
        ),
{
    match event {
        Event::GainExperience(ge) => {
            if ge.experience_id == REVIVE_EXPERIENCE_ID || ge.experience_id
                == SQUAD_REVIVE_EXPERIENCE_ID {
                handle_revive(ge, char_id)
            } else {
                None
            }
        },
        Event::Death(d) => handle_death(d, char_id, spree_count, spree_timestamp),
        Event::VehicleDestroy(vd) => handle_vehicle_destroy(vd, char_id),
        Event::PlayerLogin(l) => if l.character_id == char_id {
            Some(Category::Login)
        } else {
            None
        },
        Event::PlayerLogout(l) => if l.character_id == char_id {
            Some(Category::Logout)
        } else {
            None
        },
        Event::ItemAdded(ia) => handle_item_added(ia, char_id, weapon_ids),
        _ => None,
    }
}

/// Streak reset law: a kill more than the decay window after the previous
/// one starts a fresh streak of one, whatever count the streak had.
pub proof fn lemma_streak_reset(d0: Death, d1: Death, attacker: u64, count: u16, last: u32)
    requires
        d0.attacker_character_id == attacker,
        d0.character_id != attacker,
        d1.attacker_character_id == attacker,
        d1.character_id != attacker,
        d1.timestamp - d0.timestamp > KILLING_SPREE_INTERVAL,
    ensures
        ({
            let s0 = spec_death_spree(d0, attacker, count, last);
            spec_death_spree(d1, attacker, s0.0, s0.1).0 == 1
        }),
{
}

/// Streak continuation law: three kills by the same attacker, the second
/// and third each inside the decay window after the one before, count 1, 2
/// and 3 in order when the first starts a fresh streak.
pub proof fn lemma_streak_continuation(
    d0: Death,
    d1: Death,
    d2: Death,
    attacker: u64,
    count: u16,
    last: u32,
)
    requires
        d0.attacker_character_id == attacker,
        d0.character_id != attacker,
        d1.attacker_character_id == attacker,
        d1.character_id != attacker,
        d2.attacker_character_id == attacker,
        d2.character_id != attacker,
        !spree_continues(last, d0.timestamp),
        d0.timestamp <= d1.timestamp,
        d1.timestamp - d0.timestamp < KILLING_SPREE_INTERVAL,
        d1.timestamp <= d2.timestamp,
        d2.timestamp - d1.timestamp < KILLING_SPREE_INTERVAL,
    ensures
        ({
            let s0 = spec_death_spree(d0, attacker, count, last);
            let s1 = spec_death_spree(d1, attacker, s0.0, s0.1);
            let s2 = spec_death_spree(d2, attacker, s1.0, s1.1);
            s0.0 == 1 && s1.0 == 2 && s2.0 == 3
        }),
{
}

} // verus!
