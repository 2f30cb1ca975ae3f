//! The registry behind a lock of its own: the connection layer attaches and
//! detaches while the listener dispatches, and no caller locks anything.
use crate::notify::dispatch::{accounts_for, dispatch, Attempt};
use crate::notify::event::AppEvent;
use crate::notify::listener::{process, reaction_to_text, step, step_owed, FeedEvent, Outcome, Step};
use crate::notify::notif::Notification;
use crate::notify::registry::Registry;
use std::sync::Arc;
use tokio::sync::broadcast::Sender;
use vstd::prelude::*;
use vstd::rwlock::{RwLock, RwLockPredicate};

verus! {

/// The lock admits every registry.
pub struct AnyRegistry;

impl RwLockPredicate<Registry> for AnyRegistry {
    open spec fn inv(self, registry: Registry) -> bool {
        true
    }
}

/// A registry that many threads share. Each operation takes the lock for
/// its own duration; what it finds is the registry as it stands at that
/// moment, so nothing is promised about what another thread sees next.
pub struct SharedRegistry {
    lock: RwLock<Registry, AnyRegistry>,
}

impl SharedRegistry {
    /// A shared registry with nobody connected.
    pub fn new() -> (shared: SharedRegistry) {
        SharedRegistry { lock: RwLock::new(Registry::new(), Ghost(AnyRegistry)) }
    }

    /// Attaches `channel` to `user_id`, in place of any channel attached
    /// before.
    pub fn attach(&self, user_id: u64, channel: Sender<Arc<AppEvent>>) {
        let (mut registry, handle) = self.lock.acquire_write();
        registry.register(user_id, channel);
        handle.release_write(registry);
    }

    /// Detaches the channel of `user_id` and hands it back, if there was
    /// one.
    pub fn detach(&self, user_id: u64) -> (channel: Option<Sender<Arc<AppEvent>>>) {
        let (mut registry, handle) = self.lock.acquire_write();
        let channel = registry.unregister(user_id);
        handle.release_write(registry);
        channel
    }

    /// Whether `user_id` is connected at this moment.
    pub fn is_attached(&self, user_id: u64) -> (connected: bool) {
        let handle = self.lock.acquire_read();
        let connected = handle.borrow().is_registered(user_id);
        handle.release_read();
        connected
    }

    /// Offers the event of `notification` to the channel of each of its
    /// users who is connected at this moment: whatever the registry holds
    /// then, each member of the audience is decided exactly once.
    pub fn dispatch(&self, notification: &Notification) -> (attempts: Vec<Attempt>)
        ensures
            exists|connected: Set<u64>| #[trigger]
                accounts_for(attempts@, notification.user_ids@, connected),
    {
        let handle = self.lock.acquire_read();
        let attempts = dispatch(handle.borrow(), notification);
        proof {
            assert(accounts_for(attempts@, notification.user_ids@, handle.view().users()));
        }
        handle.release_read();
        attempts
    }

    /// Reacts to one raw notification against the registry as it stands
    /// at this moment.
    pub fn process(&self, name: &str, payload: &str) -> (outcome: Outcome)
        ensures
            exists|connected: Set<u64>| #[trigger]
                reaction_to_text(outcome, name@, payload@, connected),
    {
        let handle = self.lock.acquire_read();
        let outcome = process(handle.borrow(), name, payload);
        proof {
            assert(reaction_to_text(outcome, name@, payload@, handle.view().users()));
        }
        handle.release_read();
        outcome
    }
    /// Takes one event of the feed against the registry as it stands at
    /// this moment.
    pub fn step(&self, event: FeedEvent) -> (next: Step)
        ensures
            exists|connected: Set<u64>| #[trigger] step_owed(next, event, connected),
    {
        let handle = self.lock.acquire_read();
        let next = step(handle.borrow(), event);
        proof {
            assert(step_owed(next, event, handle.view().users()));
        }
        handle.release_read();
        next
    }
}

} // verus!
