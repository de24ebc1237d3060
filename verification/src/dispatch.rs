//! The dispatcher's fan-out decision: which tracked ids an event concerns
//! (subject, attacker, secondary participant, deduplicated) and which live
//! sessions it must therefore be delivered to, each at most once.

use crate::event::{get_attacker_id, get_character_id, get_other_id, is_relevant, Event};
use crate::registry::SubscriptionRegistry;
use vstd::prelude::*;

verus! {

broadcast use vstd::seq_lib::lemma_seq_contains_after_push, vstd::seq_lib::lemma_seq_empty_contains_nothing;

/// The ids an event concerns, each exactly once: the subject, the attacker
/// and the secondary participant, with duplicate roles collapsed — a death
/// by one's own hand names one id, not two.
pub fn relevant_ids(event: &Event) -> (ids: Vec<u64>)
    ensures
        forall|id: u64| #[trigger] ids@.contains(id) <==> is_relevant(*event, id),
        forall|i: int, j: int| 0 <= i < j < ids@.len() ==> ids@[i] != ids@[j],
{
    let subject = get_character_id(event);
    let attacker = get_attacker_id(event);
    let other = get_other_id(event);
    let mut ids: Vec<u64> = Vec::new();
    if let Some(s) = subject {
        ids.push(s);
    }
    assert(forall|id: u64| #[trigger] ids@.contains(id) <==> subject == Some(id));
    assert(forall|i: int, j: int| 0 <= i < j < ids@.len() ==> ids@[i] != ids@[j]);
    if let Some(a) = attacker {
        if !(subject == Some(a)) {
            ids.push(a);
        }
    }
    assert(forall|id: u64|
        #[trigger] ids@.contains(id) <==> subject == Some(id) || attacker == Some(id));
    assert(forall|i: int, j: int| 0 <= i < j < ids@.len() ==> ids@[i] != ids@[j]);
    if let Some(o) = other {
        if !(subject == Some(o)) && !(attacker == Some(o)) {
            ids.push(o);
        }
    }
    assert(forall|id: u64|
        #[trigger] ids@.contains(id) <==> subject == Some(id) || attacker == Some(id) || other
            == Some(id));
    assert(forall|i: int, j: int| 0 <= i < j < ids@.len() ==> ids@[i] != ids@[j]);
    ids
}

/// The sessions an event must be delivered to: one `(id, channel)` pair for
/// every tracked id the event concerns, each id at most once, with the
/// channel the registry holds for it.
pub fn dispatch_targets(event: &Event, registry: &SubscriptionRegistry) -> (targets: Vec<
    (u64, u64),
>)
    ensures
        forall|i: int|
            0 <= i < targets@.len() ==> {
                let t = #[trigger] targets@[i];
                is_relevant(*event, t.0) && registry@.dom().contains(t.0) && t.1 == registry@[t.0]
            },
        forall|id: u64|
            is_relevant(*event, id) && registry@.dom().contains(id) ==> exists|i: int|
                0 <= i < targets@.len() && (#[trigger] targets@[i]).0 == id,
        forall|i: int, j: int| 0 <= i < j < targets@.len() ==> targets@[i].0 != targets@[j].0,
{
    let ids = relevant_ids(event);
    let mut targets: Vec<(u64, u64)> = Vec::new();
    let mut k: usize = 0;
    while k < ids.len()
        invariant
            k <= ids@.len(),
            forall|id: u64| #[trigger] ids@.contains(id) <==> is_relevant(*event, id),
            forall|i: int, j: int| 0 <= i < j < ids@.len() ==> ids@[i] != ids@[j],
            forall|i: int|
                0 <= i < targets@.len() ==> {
                    let t = #[trigger] targets@[i];
                    is_relevant(*event, t.0) && registry@.dom().contains(t.0) && t.1
                        == registry@[t.0]
                },
            forall|i: int|
                0 <= i < targets@.len() ==> exists|j: int|
                    0 <= j < k && ids@[j] == (#[trigger] targets@[i]).0,
            forall|j: int|
                0 <= j < k && registry@.dom().contains(ids@[j]) ==> exists|i: int|
                    0 <= i < targets@.len() && (#[trigger] targets@[i]).0 == ids@[j],
            forall|i: int, j: int| 0 <= i < j < targets@.len() ==> targets@[i].0 != targets@[j].0,
        decreases ids@.len() - k,
    {
        let id: u64 = ids[k];
        let ghost old_targets = targets@;
        match registry.lookup(id) {
            Some(channel) => {
                proof {
                    assert(ids@.contains(id)) by {
                        assert(ids@[k as int] == id);
                    }
                    assert forall|i: int|
                        0 <= i < targets@.len() implies (#[trigger] targets@[i]).0 != id by {
                        let j = choose|j: int| 0 <= j < k && ids@[j] == targets@[i].0;
                        assert(ids@[j] != ids@[k as int]);
                    }
                }
                targets.push((id, channel));
                proof {
                    assert(targets@[targets@.len() - 1] == (id, channel));
                    assert(ids@[k as int] == id);
                }
            },
            None => {},
        }
        proof {
            assert forall|j: int|
                0 <= j < k + 1 && registry@.dom().contains(ids@[j]) implies exists|i: int|
                0 <= i < targets@.len() && (#[trigger] targets@[i]).0 == ids@[j] by {
                if j == k {
                    assert(targets@[targets@.len() - 1].0 == ids@[j]);
                } else {
                    let i = choose|i: int|
                        0 <= i < old_targets.len() && old_targets[i].0 == ids@[j];
                    assert(targets@[i].0 == ids@[j]);
                }
            }
        }
        k = k + 1;
    }
    proof {
        assert forall|id: u64|
            is_relevant(*event, id) && registry@.dom().contains(id) implies exists|i: int|
            0 <= i < targets@.len() && (#[trigger] targets@[i]).0 == id by {
            assert(ids@.contains(id));
            let j = choose|j: int| 0 <= j < ids@.len() && ids@[j] == id;
        }
    }
    targets
}

} // verus!
