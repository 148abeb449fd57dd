//! Structured event logging for a session of elements, locations and modules:
//! a formatter that turns log records into coloured, timestamped lines, and a
//! tracker that keeps the logger subscribed to exactly the live entities.
use vstd::prelude::*;

pub mod level;
pub mod record;
pub mod render;
pub mod text;
pub mod tracker;

use crate::record::{EntityId, EntityView};
use crate::tracker::{apply_all, apply_spec, commands_spec, commands_view, Command, SessionEvent, SubscriptionTracker};

verus! {

/// The logging entity of a session: it owns the subscriptions that keep it
/// informed of the session's elements and locations.
pub struct Logger {
    tracker: SubscriptionTracker,
}

impl Logger {
    /// The entities the logger is subscribed to.
    pub closed spec fn subscribed(&self) -> Set<EntityView> {
        self.tracker.subscribed()
    }

    /// The subscriptions hold no entity twice.
    pub closed spec fn wf(&self) -> bool {
        self.tracker.wf()
    }

    /// A logger with no subscriptions.
    pub fn new() -> (r: Logger)
        ensures
            r.wf(),
            r.subscribed() == Set::<EntityView>::empty(),
    {
        Logger { tracker: SubscriptionTracker::new() }
    }

    /// Follows a session event whose calls all succeed: returns the session
    /// calls it asks for, in order, and records them.
    pub fn notify(&mut self, event: &SessionEvent) -> (r: Vec<Command>)
        requires
            old(self).wf(),
        ensures
            final(self).wf(),
            commands_view(r@) == commands_spec(*event),
            final(self).subscribed() == apply_all(old(self).subscribed(), commands_spec(*event)),
    {
        self.tracker.on_event(event)
    }

    /// Records a session call that succeeded.
    pub fn confirm(&mut self, cmd: &Command)
        requires
            old(self).wf(),
        ensures
            final(self).wf(),
            final(self).subscribed() == apply_spec(old(self).subscribed(), cmd@),
    {
        self.tracker.apply(cmd)
    }

    /// Whether the logger is subscribed to an entity.
    pub fn is_subscribed(&self, id: &EntityId) -> (r: bool)
        ensures
            r == self.subscribed().contains(id@),
    {
        self.tracker.is_subscribed(id)
    }

    /// The number of subscriptions.
    pub fn subscription_count(&self) -> (r: usize)
        requires
            self.wf(),
        ensures
            r == self.subscribed().len(),
    {
        self.tracker.len()
    }
}

} // verus!
