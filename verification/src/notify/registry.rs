//! The live mapping from a user to that user's delivery channel.
use crate::notify::event::AppEvent;
use std::collections::HashMap;
use std::sync::Arc;
use tokio::sync::broadcast::Sender;
use vstd::prelude::*;
use vstd::std_specs::hash::*;

verus! {

broadcast use vstd::std_specs::hash::group_hash_axioms;

/// The sending half of `tokio::sync::broadcast`, carried through as an
/// opaque value: nothing is known of what a channel holds.
#[verifier::external_type_specification]
#[verifier::external_body]
#[verifier::reject_recursive_types(T)]
pub struct ExSender<T>(tokio::sync::broadcast::Sender<T>);

/// Calls `tokio::sync::broadcast::Sender::send`, which puts the value in the
/// channel's ring without waiting for any receiver and fails only when no
/// receiver is subscribed. Tells whether the value was taken; nothing is
/// claimed about which it will be.
#[verifier::external_body]
pub(crate) fn try_enqueue(channel: &Sender<Arc<AppEvent>>, event: Arc<AppEvent>) -> (taken: bool) {
    channel.send(event).is_ok()
}

/// The registry of connected users. The connection layer attaches a channel
/// when a user connects and detaches it when the user leaves; a user who is
/// not in it is simply not connected.
pub struct Registry {
    channels: HashMap<u64, Sender<Arc<AppEvent>>>,
}

impl Registry {
    /// The registry as a map from user to channel.
    pub closed spec fn view(&self) -> Map<u64, Sender<Arc<AppEvent>>> {
        self.channels@
    }

    /// The users who are connected.
    pub open spec fn users(&self) -> Set<u64> {
        self@.dom()
    }

    /// A registry with nobody connected.
    pub fn new() -> (registry: Registry)
        ensures
            registry@ == Map::<u64, Sender<Arc<AppEvent>>>::empty(),
    {
        Registry { channels: HashMap::new() }
    }

    /// Attaches `channel` to `user_id`, in place of any channel attached
    /// before.
    pub fn register(&mut self, user_id: u64, channel: Sender<Arc<AppEvent>>)
        ensures
            final(self)@ == old(self)@.insert(user_id, channel),
    {
        self.channels.insert(user_id, channel);
    }

    /// Detaches the channel of `user_id` and hands it back, if there was one.
    pub fn unregister(&mut self, user_id: u64) -> (channel: Option<Sender<Arc<AppEvent>>>)
        ensures
            final(self)@ == old(self)@.remove(user_id),
            channel == if old(self)@.contains_key(user_id) {
                Some(old(self)@[user_id])
            } else {
                None
            },
    {
        self.channels.remove(&user_id)
    }

    /// The channel of `user_id`, if the user is connected.
    pub fn lookup(&self, user_id: u64) -> (channel: Option<&Sender<Arc<AppEvent>>>)
        ensures
            channel == if self@.contains_key(user_id) {
                Some(&self@[user_id])
            } else {
                None
            },
    {
        self.channels.get(&user_id)
    }

    /// Whether `user_id` is connected.
    pub fn is_registered(&self, user_id: u64) -> (connected: bool)
        ensures
            connected == self.users().contains(user_id),
    {
        self.channels.contains_key(&user_id)
    }

    /// How many users are connected.
    pub fn len(&self) -> (n: usize)
        ensures
            n == self.users().len(),
    {
        self.channels.len()
    }
}

} // verus!
