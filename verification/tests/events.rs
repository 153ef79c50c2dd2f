use simse_core::event_types;
use simse_core::events::EventBus;

type Bus = EventBus<&'static str, &'static str>;

fn delivered(bus: &Bus, event_type: &str) -> Vec<&'static str> {
    let mut out: Vec<&'static str> = bus.recipients(event_type).iter().map(|i| *bus.handler_at(*i)).collect();
    out.extend(bus.global_handlers().iter().map(|(_, g)| *g));
    out
}

#[test]
fn event_reaches_its_handlers_then_global_ones() {
    let mut bus: Bus = EventBus::new();
    bus.subscribe_all("global");
    bus.subscribe(event_types::LOOP_START, "first");
    bus.subscribe(event_types::LOOP_COMPLETE, "other");
    bus.subscribe(event_types::LOOP_START, "second");
    assert_eq!(delivered(&bus, "loop.start"), vec!["first", "second", "global"]);
    assert_eq!(delivered(&bus, "loop.complete"), vec!["other", "global"]);
    assert_eq!(delivered(&bus, "nothing"), vec!["global"]);
}

#[test]
fn unsubscribed_handler_no_longer_receives() {
    let mut bus: Bus = EventBus::new();
    let a = bus.subscribe("x", "a");
    bus.subscribe("x", "b");
    let g = bus.subscribe_all("g");
    bus.unsubscribe(a);
    bus.unsubscribe(g);
    assert_eq!(delivered(&bus, "x"), vec!["b"]);
}

#[test]
fn event_bus_clear_removes_everything() {
    let mut bus: Bus = EventBus::new();
    let old = bus.subscribe("x", "a");
    bus.subscribe_all("g");
    bus.clear();
    assert!(delivered(&bus, "x").is_empty());
    bus.subscribe("x", "new");
    bus.unsubscribe(old);
    assert_eq!(delivered(&bus, "x"), vec!["new"]);
    assert!(bus.can_subscribe());
}
