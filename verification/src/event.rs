//! The event model: one variant per recognized kind of the upstream
//! real-time feed, carrying only the fields that classification and
//! dispatch read, plus role extraction (subject, attacker, secondary
//! participant).

use vstd::prelude::*;

verus! {

/// A character logged in.
#[derive(Clone, Debug)]
pub struct PlayerLogin {
    pub character_id: u64,
    pub timestamp: u32,
}

/// A character logged out.
#[derive(Clone, Debug)]
pub struct PlayerLogout {
    pub character_id: u64,
    pub timestamp: u32,
}

/// A character (the subject) died; `attacker_character_id` is the killer.
/// A suicide carries the same id in both fields.
#[derive(Clone, Debug)]
pub struct Death {
    pub character_id: u64,
    pub attacker_character_id: u64,
    pub is_headshot: bool,
    pub timestamp: u32,
}

/// A vehicle owned by the subject was destroyed by the attacker.
#[derive(Clone, Debug)]
pub struct VehicleDestroy {
    pub character_id: u64,
    pub attacker_character_id: u64,
    pub timestamp: u32,
}

/// The subject gained experience of kind `experience_id`; for revives,
/// `other_id` is the revived (or reviving) other party.
#[derive(Clone, Debug)]
pub struct GainExperience {
    pub character_id: u64,
    pub other_id: u64,
    pub experience_id: u16,
    pub timestamp: u32,
}

/// The subject received an item; `context` tags how it was obtained.
#[derive(Clone, Debug)]
pub struct ItemAdded {
    pub character_id: u64,
    pub item_id: u64,
    pub context: String,
    pub timestamp: u32,
}

/// The subject captured a facility.
#[derive(Clone, Debug)]
pub struct PlayerFacilityCapture {
    pub character_id: u64,
    pub timestamp: u32,
}

/// The subject defended a facility.
#[derive(Clone, Debug)]
pub struct PlayerFacilityDefend {
    pub character_id: u64,
    pub timestamp: u32,
}

/// A decoded event from the upstream feed. Kinds that carry no character
/// role (and are never classified) collapse into `Unrecognized`.
#[derive(Clone, Debug)]
pub enum Event {
    PlayerLogin(PlayerLogin),
    PlayerLogout(PlayerLogout),
    Death(Death),
    VehicleDestroy(VehicleDestroy),
    GainExperience(GainExperience),
    ItemAdded(ItemAdded),
    PlayerFacilityCapture(PlayerFacilityCapture),
    PlayerFacilityDefend(PlayerFacilityDefend),
    Unrecognized,
}

/// The primary subject of an event, if the kind has one.
pub open spec fn subject_of(e: Event) -> Option<u64> {
    match e {
        Event::PlayerLogin(l) => Some(l.character_id),
        Event::PlayerLogout(l) => Some(l.character_id),
        Event::Death(d) => Some(d.character_id),
        Event::VehicleDestroy(v) => Some(v.character_id),
        Event::GainExperience(g) => Some(g.character_id),
        Event::ItemAdded(i) => Some(i.character_id),
        Event::PlayerFacilityCapture(c) => Some(c.character_id),
        Event::PlayerFacilityDefend(d) => Some(d.character_id),
        Event::Unrecognized => None,
    }
}

/// The attacker (or destroyer) of an event, if the kind has one.
pub open spec fn attacker_of(e: Event) -> Option<u64> {
    match e {
        Event::Death(d) => Some(d.attacker_character_id),
        Event::VehicleDestroy(v) => Some(v.attacker_character_id),
        _ => None,
    }
}

/// The secondary participant of an event (the other party of a revive),
/// if the kind has one.
pub open spec fn other_of(e: Event) -> Option<u64> {
    match e {
        Event::GainExperience(g) => Some(g.other_id),
        _ => None,
    }
}

/// An event concerns a tracked id exactly when the id fills one of the
/// three roles.
pub open spec fn is_relevant(e: Event, id: u64) -> bool {
    subject_of(e) == Some(id) || attacker_of(e) == Some(id) || other_of(e) == Some(id)
}

/// The id of the event's primary subject.
pub fn get_character_id(event: &Event) -> (r: Option<u64>)
    ensures
        r == subject_of(*event),
{
    match event {
        Event::PlayerLogin(l) => Some(l.character_id),
        Event::PlayerLogout(l) => Some(l.character_id),
        Event::Death(d) => Some(d.character_id),
        Event::VehicleDestroy(v) => Some(v.character_id),
        Event::GainExperience(g) => Some(g.character_id),
        Event::ItemAdded(i) => Some(i.character_id),
        Event::PlayerFacilityCapture(c) => Some(c.character_id),
        Event::PlayerFacilityDefend(d) => Some(d.character_id),
        Event::Unrecognized => None,
    }
}

/// The id of the event's attacker or destroyer.
pub fn get_attacker_id(event: &Event) -> (r: Option<u64>)
    ensures
        r == attacker_of(*event),
{
    match event {
        Event::Death(d) => Some(d.attacker_character_id),
        Event::VehicleDestroy(v) => Some(v.attacker_character_id),
        _ => None,
    }
}

/// The id of the event's secondary participant.
pub fn get_other_id(event: &Event) -> (r: Option<u64>)
    ensures
        r == other_of(*event),
{
    match event {
        Event::GainExperience(g) => Some(g.other_id),
        _ => None,
    }
}

} // verus!
