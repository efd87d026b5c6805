//! Events passed between servers, the bus that publishes them and hands received ones to the
//! registered handlers.

use vstd::prelude::*;

verus! {

/// The channel that server events are published on.
pub const SYS_EVENT: &'static str = "sys.event";

/// Event type of a new login, after which the servers sync their sessions.
pub const EV_001: u8 = 1;

/// An event: the server it came from, its type, the channel it goes on and its payload.
pub struct Event {
    pub host_id: String,
    pub event_type: u8,
    pub channel: String,
    pub event_body: String,
}

impl Clone for Event {
    fn clone(&self) -> (r: Self)
        ensures
            r.host_id@ == self.host_id@,
            r.event_type == self.event_type,
            r.channel@ == self.channel@,
            r.event_body@ == self.event_body@,
    {
        Event {
            host_id: self.host_id.clone(),
            event_type: self.event_type,
            channel: self.channel.clone(),
            event_body: self.event_body.clone(),
        }
    }
}

/// Where the bus sends the events it publishes.
pub trait EventBridge {
    fn publish(&self, event: &Event);
}

/// Publishes events through a bridge and hands received events to its handlers, in the order
/// they were registered.
pub struct EventBus<B: EventBridge, H: Fn(&Event)> {
    event_bridge: B,
    handles: Vec<H>,
}

impl<B: EventBridge, H: Fn(&Event)> EventBus<B, H> {
    /// The handlers, in the order they were registered.
    pub closed spec fn handlers(&self) -> Seq<H> {
        self.handles@
    }

    /// The bridge that events are published through.
    pub closed spec fn bridge(&self) -> B {
        self.event_bridge
    }

    /// A bus on `event_bridge` with no handlers.
    pub fn new(event_bridge: B) -> (r: Self)
        ensures
            r.handlers() == Seq::<H>::empty(),
            r.bridge() == event_bridge,
    {
        EventBus { event_bridge, handles: Vec::new() }
    }

    /// Publishes `event` through the bridge.
    pub fn publish(&self, event: &Event) {
        self.event_bridge.publish(event);
    }

    /// Adds a handler after the registered ones.
    pub fn register(&mut self, lsnr: H)
        ensures
            final(self).handlers() == old(self).handlers().push(lsnr),
            final(self).bridge() == old(self).bridge(),
    {
        self.handles.push(lsnr);
    }

    /// Hands `event` to every handler, in the order they were registered.
    pub fn handle(&self, event: &Event)
        requires
            forall|i: int| 0 <= i < self.handlers().len() ==> call_requires(#[trigger] self.handlers()[i], (event,)),
        ensures
            forall|i: int| 0 <= i < self.handlers().len() ==> call_ensures(#[trigger] self.handlers()[i], (event,), ()),
    {
        let mut i: usize = 0;
        while i < self.handles.len()
            invariant
                i <= self.handles@.len(),
                forall|j: int| 0 <= j < self.handlers().len() ==> call_requires(#[trigger] self.handlers()[j], (event,)),
                self.handlers() == self.handles@,
                forall|j: int| 0 <= j < i ==> call_ensures(#[trigger] self.handlers()[j], (event,), ()),
            decreases self.handles@.len() - i,
        {
            let h = &self.handles[i];
            h(event);
            i = i + 1;
        }
    }
}

/// What a received event calls for on this server.
#[derive(Clone, Copy, Debug, PartialEq, Eq, Structural)]
pub enum EventAction {
    /// The event came from another server: nothing is done.
    Ignore,
    /// A new login on this server: sessions are synced.
    SyncSession,
    /// An event type that calls for nothing.
    Unhandled,
}

/// What a received event calls for, on the server `host_id`: only the server's own events are
/// acted on, by their type.
pub fn on_event(event: &Event, host_id: &str) -> (r: EventAction)
    ensures
        event.host_id@ != host_id@ ==> r == EventAction::Ignore,
        event.host_id@ == host_id@ && event.event_type == EV_001 ==> r == EventAction::SyncSession,
        event.host_id@ == host_id@ && event.event_type != EV_001 ==> r == EventAction::Unhandled,
{
    let own = crate::proto::owned(host_id);
    if event.host_id != own {
        return EventAction::Ignore;
    }
    match event.event_type {
        EV_001 => EventAction::SyncSession,
        _ => EventAction::Unhandled,
    }
}

} // verus!
