//! What the manager does over a whole sequence of events.

use crate::serial::{Event, EventView, ManagerView, Notification, NotificationView, SessionManager};
use vstd::prelude::*;

verus! {

/// The views of a sequence of events, one by one.
pub open spec fn event_views<H>(events: Seq<Event<H>>) -> Seq<EventView<H>> {
    events.map_values(|event: Event<H>| event@)
}

/// The views of a sequence of notifications, one by one.
pub open spec fn notification_views(notifications: Seq<Notification>) -> Seq<NotificationView> {
    notifications.map_values(|notification: Notification| notification@)
}

/// The state that `events`, taken in order, lead to from `state`.
pub open spec fn run<H>(state: ManagerView<H>, events: Seq<EventView<H>>) -> ManagerView<H>
    decreases events.len(),
{
    if events.len() == 0 {
        state
    } else {
        run(state, events.drop_last()).next(events.last())
    }
}

/// A notification or none, as a sequence.
pub open spec fn listed(notification: Option<NotificationView>) -> Seq<NotificationView> {
    match notification {
        Some(notification) => seq![notification],
        None => seq![],
    }
}

/// The notifications that `events`, taken in order from `state`, lead to.
pub open spec fn emitted<H>(state: ManagerView<H>, events: Seq<EventView<H>>) -> Seq<
    NotificationView,
>
    decreases events.len(),
{
    if events.len() == 0 {
        seq![]
    } else {
        emitted(state, events.drop_last()) + listed(
            run(state, events.drop_last()).notification(events.last()),
        )
    }
}

impl<H> SessionManager<H> {
    /// Takes the events in order: gives the manager as it is after the last of them, and
    /// the notifications that they led to, in order.
    pub fn run(self, events: Vec<Event<H>>) -> (r: (Self, Vec<Notification>))
        ensures
            r.0@ == run(self@, event_views(events@)),
            notification_views(r.1@) == emitted(self@, event_views(events@)),
    {
        let ghost start = self@;
        let ghost all = event_views(events@);
        let mut manager = self;
        let mut notifications: Vec<Notification> = Vec::new();
        for event in it: events
            invariant
                it.seq() == events@,
                all == event_views(events@),
                manager@ == run(start, all.take(it.index() as int)),
                notification_views(notifications@) == emitted(start, all.take(it.index() as int)),
        {
            let ghost seen = all.take(it.index() as int);
            let ghost grown = all.take(it.index() as int + 1);
            proof {
                assert(grown.drop_last() == seen);
                assert(grown.last() == event@);
            }
            let ghost before = notification_views(notifications@);
            let (next, step) = manager.step(event);
            manager = next;
            if let Some(notification) = step.notification {
                notifications.push(notification);
                assert(notification_views(notifications@) == before + seq![notification@]);
            }
        }
        proof {
            assert(all.take(all.len() as int) == all);
        }
        (manager, notifications)
    }
}

} // verus!
