use std::sync::atomic::{AtomicUsize, Ordering};
use std::sync::{Arc, Mutex};
use zz_metasvr::event_bus::{on_event, Event, EventAction, EventBridge, EventBus, EV_001, SYS_EVENT};

struct RecordingBridge {
    sent: Arc<Mutex<Vec<String>>>,
}

impl EventBridge for RecordingBridge {
    fn publish(&self, event: &Event) {
        self.sent.lock().unwrap().push(event.event_body.clone());
    }
}

fn event(host: &str, ty: u8) -> Event {
    Event { host_id: host.to_string(), event_type: ty, channel: SYS_EVENT.to_string(), event_body: "body".to_string() }
}

static FIRST: AtomicUsize = AtomicUsize::new(0);
static SECOND: AtomicUsize = AtomicUsize::new(0);

fn first(_e: &Event) {
    FIRST.fetch_add(1, Ordering::SeqCst);
}

fn second(_e: &Event) {
    SECOND.fetch_add(1, Ordering::SeqCst);
}

#[test]
fn handle_calls_every_registered_handler() {
    let mut bus: EventBus<RecordingBridge, fn(&Event)> = EventBus::new(RecordingBridge { sent: Arc::new(Mutex::new(vec![])) });
    bus.register(first);
    bus.register(second);
    bus.handle(&event("h", EV_001));
    bus.handle(&event("h", 9));
    assert_eq!(FIRST.load(Ordering::SeqCst), 2);
    assert_eq!(SECOND.load(Ordering::SeqCst), 2);
}

#[test]
fn publish_goes_through_the_bridge() {
    let sent = Arc::new(Mutex::new(vec![]));
    let bus: EventBus<RecordingBridge, fn(&Event)> = EventBus::new(RecordingBridge { sent: sent.clone() });
    let mut e = event("h", EV_001);
    bus.publish(&e);
    e.event_body = "second".to_string();
    bus.publish(&e);
    assert_eq!(*sent.lock().unwrap(), vec!["body".to_string(), "second".to_string()]);
}

#[test]
fn on_event_acts_only_on_own_events() {
    assert_eq!(on_event(&event("other", EV_001), "me"), EventAction::Ignore);
    assert_eq!(on_event(&event("me", EV_001), "me"), EventAction::SyncSession);
    assert_eq!(on_event(&event("me", 7), "me"), EventAction::Unhandled);
}
