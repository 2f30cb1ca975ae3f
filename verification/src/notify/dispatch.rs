//! Dispatch: one enqueue attempt for each connected member of the audience.
use crate::notify::notif::Notification;
use crate::notify::registry::{try_enqueue, Registry};
use std::sync::Arc;
use vstd::prelude::*;
use vstd::std_specs::hash::*;
use vstd::std_specs::iter::IteratorSpec;

verus! {

broadcast use vstd::std_specs::hash::group_hash_axioms;

/// What became of the event for one user of the audience.
#[derive(Debug, Clone, Copy, PartialEq, Eq, Structural)]
pub enum Delivery {
    /// The user's channel took the event.
    Delivered,
    /// The user's channel refused the event; it is not offered again.
    Refused,
    /// The user is not connected; nothing was attempted.
    NotConnected,
}

/// One user of the audience and what became of the event for that user.
#[derive(Debug, Clone, Copy, PartialEq, Eq, Structural)]
pub struct Attempt {
    pub user_id: u64,
    pub delivery: Delivery,
}

/// The users of a list of attempts, in its order.
pub open spec fn attempt_users(attempts: Seq<Attempt>) -> Seq<u64> {
    attempts.map_values(|a: Attempt| a.user_id)
}

/// What a dispatch to `audience` owes when `connected` are the users in the
/// registry: each member of the audience is decided exactly once, nobody
/// else is, and an enqueue is attempted for a member exactly when that
/// member is connected.
pub open spec fn accounts_for(attempts: Seq<Attempt>, audience: Set<u64>, connected: Set<u64>) -> bool {
    &&& attempt_users(attempts).no_duplicates()
    &&& attempt_users(attempts).to_set() == audience
    &&& forall|i: int|
        0 <= i < attempts.len() ==> (#[trigger] attempts[i].delivery is NotConnected
            <==> !connected.contains(attempts[i].user_id))
}

/// Offers the event of `notification` to the channel of each of its users
/// who is connected. A user who is not connected is passed over; a channel
/// that refuses the event costs only its own user. Every channel is handed
/// the one shared event.
pub fn dispatch(registry: &Registry, notification: &Notification) -> (attempts: Vec<Attempt>)
    ensures
        accounts_for(attempts@, notification.user_ids@, registry.users()),
{
    let mut attempts: Vec<Attempt> = Vec::new();
    let ghost keys: Seq<u64> = IteratorSpec::remaining(
        &spec_hash_keys_iter(&notification.user_ids),
    ).unref();
    proof {
        assert(IteratorSpec::remaining(&spec_hash_keys_iter(&notification.user_ids)).no_duplicates());
        assert(keys.no_duplicates());
        assert(keys.to_set() == notification.user_ids@);
    }
    for user_id in it: notification.user_ids.iter()
        invariant
            it.seq().unref() == keys,
            attempt_users(attempts@) == keys.take(it.index()),
            forall|i: int|
                0 <= i < attempts.len() ==> (#[trigger] attempts[i].delivery is NotConnected
                    <==> !registry.users().contains(attempts[i].user_id)),
    {
        let ghost before = attempts@;
        let delivery = match registry.lookup(*user_id) {
            Some(channel) => {
                if try_enqueue(channel, Arc::clone(&notification.event)) {
                    Delivery::Delivered
                } else {
                    Delivery::Refused
                }
            },
            None => Delivery::NotConnected,
        };
        attempts.push(Attempt { user_id: *user_id, delivery });
        proof {
            let next = keys.take(it.index() + 1);
            assert(attempt_users(before).len() == before.len());
            assert(attempt_users(attempts@).len() == attempts@.len());
            assert forall|i: int| 0 <= i < next.len() implies attempt_users(attempts@)[i] == next[i] by {
                if i < before.len() {
                    assert(attempt_users(before)[i] == keys.take(it.index())[i]);
                } else {
                    assert(*user_id == keys[it.index()]);
                }
            }
            assert(attempt_users(attempts@) =~= next);
        }
    }
    proof {
        assert(attempt_users(attempts@) =~= keys);
    }
    attempts
}

} // verus!
