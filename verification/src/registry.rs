//! The subscription registry: the process-wide map from tracked character
//! id to the session's inbound channel handle. Registration for an id with
//! a live session is rejected, never overwritten; removal is idempotent;
//! lookup is read-only.
//!
//! The surrounding runtime serializes access (it owns the lock); the
//! operations here are the linearization points.

use std::collections::HashMap;
use vstd::prelude::*;

verus! {

broadcast use vstd::std_specs::hash::group_hash_axioms;

/// Registration was refused: the id already has a live session.
#[derive(Clone, Copy, Debug, PartialEq, Eq, Structural)]
pub struct AlreadyTracked;

/// Maps each tracked character id to its session's channel handle.
pub struct SubscriptionRegistry {
    sessions: HashMap<u64, u64>,
}

impl View for SubscriptionRegistry {
    type V = Map<u64, u64>;

    closed spec fn view(&self) -> Map<u64, u64> {
        self.sessions@
    }
}

impl SubscriptionRegistry {
    /// An empty registry: nothing is tracked.
    pub fn new() -> (r: SubscriptionRegistry)
        ensures
            r@ == Map::<u64, u64>::empty(),
    {
        SubscriptionRegistry { sessions: HashMap::new() }
    }

    /// Whether the id has a live session.
    pub fn contains(&self, id: u64) -> (r: bool)
        ensures
            r == self@.dom().contains(id),
    {
        self.sessions.contains_key(&id)
    }

    /// The channel handle of the id's live session, if any.
    pub fn lookup(&self, id: u64) -> (r: Option<u64>)
        ensures
            r == if self@.dom().contains(id) {
                Some(self@[id])
            } else {
                None::<u64>
            },
    {
        match self.sessions.get(&id) {
            Some(channel) => Some(*channel),
            None => None,
        }
    }

    /// Registers a session for the id: refused without any change when the
    /// id already has a live session, inserted atomically otherwise.
    pub fn register(&mut self, id: u64, channel: u64) -> (r: Result<(), AlreadyTracked>)
        ensures
            old(self)@.dom().contains(id) ==> r is Err && final(self)@ == old(self)@,
            !old(self)@.dom().contains(id) ==> r is Ok && final(self)@ == old(self)@.insert(
                id,
                channel,
            ),
    {
        if self.sessions.contains_key(&id) {
            Err(AlreadyTracked)
        } else {
            self.sessions.insert(id, channel);
            Ok(())
        }
    }

    /// Removes the id's session; nothing happens when none is live.
    pub fn unregister(&mut self, id: u64)
        ensures
            final(self)@ == old(self)@.remove(id),
    {
        self.sessions.remove(&id);
    }
}

/// A session-lifecycle command: start tracking an id on a channel, or stop
/// tracking an id.
#[derive(Clone, Copy, Debug, PartialEq, Eq, Structural)]
pub enum TrackCommand {
    Track(u64, u64),
    Untrack(u64),
}

/// Whether some live session carries the id.
pub open spec fn has_session(sessions: Seq<(u64, u64)>, id: u64) -> bool {
    exists|i: int| 0 <= i < sessions.len() && sessions[i].0 == id
}

/// The live sessions with every session of the id removed.
pub open spec fn remove_sessions(sessions: Seq<(u64, u64)>, id: u64) -> Seq<(u64, u64)>
    decreases sessions.len(),
{
    if sessions.len() == 0 {
        Seq::empty()
    } else if sessions.last().0 == id {
        remove_sessions(sessions.drop_last(), id)
    } else {
        remove_sessions(sessions.drop_last(), id).push(sessions.last())
    }
}

/// The live sessions after one command: a track of an id with a live
/// session is rejected and changes nothing, a track of a fresh id adds its
/// session, an untrack removes whatever sessions carry the id.
pub open spec fn live_after(sessions: Seq<(u64, u64)>, c: TrackCommand) -> Seq<(u64, u64)> {
    match c {
        TrackCommand::Track(id, channel) => if has_session(sessions, id) {
            sessions
        } else {
            sessions.push((id, channel))
        },
        TrackCommand::Untrack(id) => remove_sessions(sessions, id),
    }
}

/// The live sessions after a whole command sequence, starting from none.
pub open spec fn live_sessions(commands: Seq<TrackCommand>) -> Seq<(u64, u64)>
    decreases commands.len(),
{
    if commands.len() == 0 {
        Seq::empty()
    } else {
        live_after(live_sessions(commands.drop_last()), commands.last())
    }
}

/// No two live sessions carry the same id.
pub open spec fn ids_unique(sessions: Seq<(u64, u64)>) -> bool {
    forall|i: int, j: int|
        0 <= i < j < sessions.len() ==> (#[trigger] sessions[i]).0 != (#[trigger] sessions[j]).0
}

/// Removal only discards sessions: whatever id a remaining session
/// carries, a session carried it before, and every session of the removed
/// id is gone.
pub proof fn lemma_remove_sessions(sessions: Seq<(u64, u64)>, id: u64)
    ensures
        forall|id2: u64|
            #[trigger] has_session(remove_sessions(sessions, id), id2) ==> has_session(
                sessions,
                id2,
            ) && id2 != id,
    decreases sessions.len(),
{
    if sessions.len() > 0 {
        lemma_remove_sessions(sessions.drop_last(), id);
        assert forall|id2: u64| #[trigger]
            has_session(remove_sessions(sessions, id), id2) implies has_session(sessions, id2)
            && id2 != id by {
            let removed = remove_sessions(sessions, id);
            let i = choose|i: int| 0 <= i < removed.len() && removed[i].0 == id2;
            if sessions.last().0 != id && i == removed.len() - 1 {
                assert(sessions[sessions.len() - 1].0 == id2);
            } else {
                assert(has_session(remove_sessions(sessions.drop_last(), id), id2));
                let j = choose|j: int|
                    0 <= j < sessions.drop_last().len() && sessions.drop_last()[j].0 == id2;
                assert(sessions[j].0 == id2);
            }
        }
    }
}

/// Removal keeps the uniqueness of ids.
pub proof fn lemma_remove_keeps_unique(sessions: Seq<(u64, u64)>, id: u64)
    requires
        ids_unique(sessions),
    ensures
        ids_unique(remove_sessions(sessions, id)),
    decreases sessions.len(),
{
    if sessions.len() > 0 {
        let head = sessions.drop_last();
        assert(ids_unique(head)) by {
            assert(forall|i: int, j: int|
                0 <= i < j < head.len() ==> (#[trigger] head[i]).0 != (#[trigger] head[j]).0);
        }
        lemma_remove_keeps_unique(head, id);
        if sessions.last().0 != id {
            lemma_remove_sessions(head, id);
            let removed = remove_sessions(head, id);
            assert forall|i: int, j: int|
                0 <= i < j < remove_sessions(sessions, id).len() implies (#[trigger] remove_sessions(
                sessions,
                id,
            )[i]).0 != (#[trigger] remove_sessions(sessions, id)[j]).0 by {
                if j == removed.len() {
                    if removed[i].0 == sessions.last().0 {
                        assert(has_session(removed, sessions.last().0));
                        let k = choose|k: int|
                            0 <= k < head.len() && head[k].0 == sessions.last().0;
                        assert(sessions[k].0 == sessions[sessions.len() - 1].0);
                    }
                }
            }
        }
    }
}

/// Uniqueness law: after any sequence of track and untrack commands,
/// starting from no sessions, at most one live session carries any id —
/// because a track of an id with a live session is rejected outright.
pub proof fn lemma_session_uniqueness(commands: Seq<TrackCommand>)
    ensures
        ids_unique(live_sessions(commands)),
    decreases commands.len(),
{
    if commands.len() > 0 {
        let before = live_sessions(commands.drop_last());
        lemma_session_uniqueness(commands.drop_last());
        match commands.last() {
            TrackCommand::Track(id, channel) => {
                if !has_session(before, id) {
                    let after = before.push((id, channel));
                    assert forall|i: int, j: int|
                        0 <= i < j < after.len() implies (#[trigger] after[i]).0 != (
                    #[trigger] after[j]).0 by {
                        if j == after.len() - 1 {
                            assert(after[i] == before[i]);
                            if before[i].0 == id {
                                assert(has_session(before, id));
                            }
                        }
                    }
                }
            },
            TrackCommand::Untrack(id) => {
                lemma_remove_keeps_unique(before, id);
            },
        }
    }
}

} // verus!
