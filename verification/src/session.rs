//! The per-entity session worker: a state machine that consumes delivered
//! events, idle timeouts, channel closure and playback-completion signals,
//! and tells the surrounding runtime what to do after each step.
//!
//! The runtime owns the clock, the channel and the playback sink: it wakes
//! the worker with one `SessionInput` at a time and performs the returned
//! `SessionAction`.

use crate::classify::{spec_event_spree, spec_handle_event, handle_event, Category};
use crate::event::Event;
use vstd::prelude::*;

verus! {

/// Minutes of event silence after which a session expires.
pub const TIMEOUT_MINS: u8 = 5;

/// Where a session stands in its life cycle.
#[derive(Clone, Copy, Debug, PartialEq, Eq, Structural)]
pub enum SessionPhase {
    /// Waiting for the next event with the idle timer running.
    Active,
    /// A logout cue is playing; tear down once it finishes.
    LoggingOut,
    /// The idle window elapsed with no event; the session is over.
    TimedOut,
    /// The session is over and owes nothing further.
    Terminated,
}

/// One occurrence a session worker wakes on.
#[derive(Clone, Debug)]
pub enum SessionInput {
    /// The dispatcher delivered an event on the session's channel.
    Delivered(Event),
    /// The idle window elapsed before any event arrived.
    IdleTimeout,
    /// The session's channel was closed from outside.
    ChannelClosed,
    /// The playback sink finished the cue the worker was waiting on.
    PlaybackFinished,
}

/// What the surrounding runtime must do after a step.
#[derive(Clone, Copy, Debug, PartialEq, Eq, Structural)]
pub enum SessionAction {
    /// Play a cue of this category; nothing is awaited.
    Play(Category),
    /// Play the logout cue and hand back `PlaybackFinished` once it ends.
    PlayLogout,
    /// Announce the expiry, leave the voice target and unregister.
    NotifyExpiry,
    /// The logout cue ended: announce it, leave the voice target and
    /// unregister.
    Disconnect,
}

/// The state a session worker owns: the tracked character, the streak and
/// the phase of its life cycle.
#[derive(Clone, Copy, Debug, PartialEq, Eq, Structural)]
pub struct SessionWorker {
    pub tracked_id: u64,
    pub spree_count: u16,
    pub spree_timestamp: u32,
    pub phase: SessionPhase,
}

/// One transition of the session state machine: the state after the input
/// and the at-most-one action it demands.
pub open spec fn spec_step(w: SessionWorker, input: SessionInput, weapons: Seq<u64>) -> (
    SessionWorker,
    Option<SessionAction>,
) {
    match w.phase {
        SessionPhase::Active => match input {
            SessionInput::Delivered(e) => {
                let category = spec_handle_event(
                    e,
                    w.tracked_id,
                    w.spree_count,
                    w.spree_timestamp,
                    weapons,
                );
                let spree = spec_event_spree(e, w.tracked_id, w.spree_count, w.spree_timestamp);
                let stepped = SessionWorker {
                    spree_count: spree.0,
                    spree_timestamp: spree.1,
                    ..w
                };
                match category {
                    Some(Category::Logout) => (
                        SessionWorker { phase: SessionPhase::LoggingOut, ..stepped },
                        Some(SessionAction::PlayLogout),
                    ),
                    Some(c) => (stepped, Some(SessionAction::Play(c))),
                    None => (stepped, None),
                }
            },
            SessionInput::IdleTimeout => (
                SessionWorker { phase: SessionPhase::TimedOut, ..w },
                Some(SessionAction::NotifyExpiry),
            ),
            SessionInput::ChannelClosed => (
                SessionWorker { phase: SessionPhase::Terminated, ..w },
                None,
            ),
            SessionInput::PlaybackFinished => (w, None),
        },
        SessionPhase::LoggingOut => match input {
            SessionInput::PlaybackFinished => (
                SessionWorker { phase: SessionPhase::Terminated, ..w },
                Some(SessionAction::Disconnect),
            ),
            SessionInput::ChannelClosed => (
                SessionWorker { phase: SessionPhase::Terminated, ..w },
                None,
            ),
            _ => (w, None),
        },
        _ => (w, None),
    }
}

impl SessionWorker {
    /// A fresh session for one tracked character: active, with no streak.
    pub fn new(tracked_id: u64) -> (w: SessionWorker)
        ensures
            w == (SessionWorker {
                tracked_id,
                spree_count: 0,
                spree_timestamp: 0,
                phase: SessionPhase::Active,
            }),
    {
        SessionWorker { tracked_id, spree_count: 0, spree_timestamp: 0, phase: SessionPhase::Active }
    }

    /// Runs one transition of the state machine.
    pub fn step(&mut self, input: SessionInput, weapon_ids: &Vec<u64>) -> (action: Option<
        SessionAction,
    >)
        ensures
            *final(self) == spec_step(*old(self), input, weapon_ids@).0,
            action == spec_step(*old(self), input, weapon_ids@).1,
    {
        match self.phase {
            SessionPhase::Active => match input {
                SessionInput::Delivered(e) => {
                    let mut count: u16 = self.spree_count;
                    let mut last: u32 = self.spree_timestamp;
                    let category = handle_event(&e, self.tracked_id, &mut count, &mut last, weapon_ids);
                    self.spree_count = count;
                    self.spree_timestamp = last;
                    match category {
                        Some(Category::Logout) => {
                            self.phase = SessionPhase::LoggingOut;
                            Some(SessionAction::PlayLogout)
                        },
                        Some(c) => Some(SessionAction::Play(c)),
                        None => None,
                    }
                },
                SessionInput::IdleTimeout => {
                    self.phase = SessionPhase::TimedOut;
                    Some(SessionAction::NotifyExpiry)
                },
                SessionInput::ChannelClosed => {
                    self.phase = SessionPhase::Terminated;
                    None
                },
                SessionInput::PlaybackFinished => None,
            },
            SessionPhase::LoggingOut => match input {
                SessionInput::PlaybackFinished => {
                    self.phase = SessionPhase::Terminated;
                    Some(SessionAction::Disconnect)
                },
                SessionInput::ChannelClosed => {
                    self.phase = SessionPhase::Terminated;
                    None
                },
                _ => None,
            },
            _ => None,
        }
    }
}

/// The actions a whole input sequence demands, one slot per input.
pub open spec fn run_actions(w: SessionWorker, inputs: Seq<SessionInput>, weapons: Seq<u64>)
    -> Seq<Option<SessionAction>>
    decreases inputs.len(),
{
    if inputs.len() == 0 {
        Seq::empty()
    } else {
        seq![spec_step(w, inputs[0], weapons).1] + run_actions(
            spec_step(w, inputs[0], weapons).0,
            inputs.drop_first(),
            weapons,
        )
    }
}

/// How many of the actions announce an expiry.
pub open spec fn expiry_count(actions: Seq<Option<SessionAction>>) -> nat
    decreases actions.len(),
{
    if actions.len() == 0 {
        0nat
    } else {
        (if actions[0] == Some(SessionAction::NotifyExpiry) {
            1nat
        } else {
            0nat
        }) + expiry_count(actions.drop_first())
    }
}

/// Whether an action announces a classified category (a plain cue or the
/// logout cue).
pub open spec fn announces_category(a: Option<SessionAction>) -> bool {
    a matches Some(SessionAction::Play(_)) || a == Some(SessionAction::PlayLogout)
}

/// A session that has left the `Active` phase never returns to it.
pub proof fn lemma_never_active_again(w: SessionWorker, input: SessionInput, weapons: Seq<u64>)
    requires
        w.phase != SessionPhase::Active,
    ensures
        spec_step(w, input, weapons).0.phase != SessionPhase::Active,
{
}

/// A session that has left the `Active` phase announces no expiry, however
/// the run goes on.
pub proof fn lemma_no_expiry_when_not_active(
    w: SessionWorker,
    inputs: Seq<SessionInput>,
    weapons: Seq<u64>,
)
    requires
        w.phase != SessionPhase::Active,
    ensures
        expiry_count(run_actions(w, inputs, weapons)) == 0,
    decreases inputs.len(),
{
    if inputs.len() > 0 {
        let next = spec_step(w, inputs[0], weapons).0;
        lemma_never_active_again(w, inputs[0], weapons);
        lemma_no_expiry_when_not_active(next, inputs.drop_first(), weapons);
        assert(run_actions(w, inputs, weapons).drop_first() =~= run_actions(
            next,
            inputs.drop_first(),
            weapons,
        ));
    }
}

/// Idle-timeout law: over any input sequence a session announces at most
/// one expiry, because the transition that announces it leaves `Active`
/// for good.
pub proof fn lemma_at_most_one_expiry(
    w: SessionWorker,
    inputs: Seq<SessionInput>,
    weapons: Seq<u64>,
)
    ensures
        expiry_count(run_actions(w, inputs, weapons)) <= 1,
    decreases inputs.len(),
{
    if inputs.len() > 0 {
        let step = spec_step(w, inputs[0], weapons);
        assert(run_actions(w, inputs, weapons).drop_first() =~= run_actions(
            step.0,
            inputs.drop_first(),
            weapons,
        ));
        if step.1 == Some(SessionAction::NotifyExpiry) {
            assert(step.0.phase != SessionPhase::Active);
            lemma_no_expiry_when_not_active(step.0, inputs.drop_first(), weapons);
        } else {
            lemma_at_most_one_expiry(step.0, inputs.drop_first(), weapons);
        }
    }
}

/// Idle-timeout law, exactness: an idle timeout that reaches an active
/// session announces the expiry at once, and nothing in the rest of the
/// run announces another.
pub proof fn lemma_idle_timeout_expires_exactly_once(
    w: SessionWorker,
    inputs: Seq<SessionInput>,
    weapons: Seq<u64>,
)
    requires
        w.phase == SessionPhase::Active,
        inputs.len() > 0,
        inputs[0] is IdleTimeout,
    ensures
        run_actions(w, inputs, weapons)[0] == Some(SessionAction::NotifyExpiry),
        expiry_count(run_actions(w, inputs, weapons)) == 1,
{
    let step = spec_step(w, inputs[0], weapons);
    lemma_no_expiry_when_not_active(step.0, inputs.drop_first(), weapons);
    assert(run_actions(w, inputs, weapons).drop_first() =~= run_actions(
        step.0,
        inputs.drop_first(),
        weapons,
    ));
}

/// Logout sequencing law, first half: a session that has left the `Active`
/// phase classifies no further event — no action of the rest of the run
/// announces a category.
pub proof fn lemma_no_classification_after_active(
    w: SessionWorker,
    inputs: Seq<SessionInput>,
    weapons: Seq<u64>,
)
    requires
        w.phase != SessionPhase::Active,
    ensures
        forall|i: int|
            0 <= i < run_actions(w, inputs, weapons).len() ==> !announces_category(
                #[trigger] run_actions(w, inputs, weapons)[i],
            ),
    decreases inputs.len(),
{
    if inputs.len() > 0 {
        let next = spec_step(w, inputs[0], weapons).0;
        lemma_never_active_again(w, inputs[0], weapons);
        lemma_no_classification_after_active(next, inputs.drop_first(), weapons);
        assert(run_actions(w, inputs, weapons).drop_first() =~= run_actions(
            next,
            inputs.drop_first(),
            weapons,
        ));
    }
}

/// Logout sequencing law, second half: while the logout cue plays, the one
/// and only input that tears the session down (and unregisters it) is the
/// playback-completion signal.
pub proof fn lemma_teardown_awaits_playback(
    w: SessionWorker,
    input: SessionInput,
    weapons: Seq<u64>,
)
    requires
        w.phase == SessionPhase::LoggingOut,
    ensures
        (spec_step(w, input, weapons).1 == Some(SessionAction::Disconnect)) <==> (input
            is PlaybackFinished),
        (input is PlaybackFinished) ==> spec_step(w, input, weapons).0.phase
            == SessionPhase::Terminated,
{
}

} // verus!
