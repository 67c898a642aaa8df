use observable::Event;
use observable::EventPayload;
use observable::ListenerHandle;
use observable::Observable;

#[test]
fn fresh_snapshot_shows_name() {
    let e = Observable::new1("alpha");
    assert_eq!(
        e.debug_snapshot(),
        "Observable { name: \"alpha\", observer_count: 0, event_queue_length: 0 }"
    );
}

#[test]
fn fresh_counts_are_zero() {
    let e = Observable::new1("a");
    assert_eq!(e.observer_count(), 0);
    assert_eq!(e.event_queue_length(), 0);
}

#[test]
fn empty_name_is_accepted() {
    let e = Observable::new1("");
    assert_eq!(
        e.debug_snapshot(),
        "Observable { name: \"\", observer_count: 0, event_queue_length: 0 }"
    );
    let shared = Observable::new("");
    assert_eq!(
        shared.snapshot(),
        "Observable { name: \"\", observer_count: 0, event_queue_length: 0 }"
    );
}

#[test]
fn rename_then_snapshot() {
    let mut e = Observable::new1("before");
    e.set_name(String::from("after"));
    assert_eq!(
        e.debug_snapshot(),
        "Observable { name: \"after\", observer_count: 0, event_queue_length: 0 }"
    );
    assert_eq!(e.observer_count(), 0);
    assert_eq!(e.event_queue_length(), 0);
}

#[test]
fn snapshot_is_repeatable() {
    let e = Observable::new1("same");
    assert_eq!(e.debug_snapshot(), e.debug_snapshot());
    let shared = Observable::new("same");
    assert_eq!(shared.snapshot(), shared.snapshot());
}

#[test]
fn clone_then_reference_count() {
    let z = Observable::new("z");
    let z2 = z.clone_handle();
    assert_eq!(z.reference_count(), 2);
    assert_eq!(z2.reference_count(), 2);
}

#[test]
fn clones_accumulate_in_count() {
    let h = Observable::new("h");
    let h1 = h.clone_handle();
    let h2 = h.clone_handle();
    let h3 = h2.clone_handle();
    assert_eq!(h.reference_count(), 4);
    drop(h1);
    assert_eq!(h3.reference_count(), 3);
}

#[test]
fn scenario_z() {
    let z = Observable::new("z");
    let z2 = z.clone_handle();
    assert_eq!(z.reference_count(), 2);
    assert_eq!(
        z2.snapshot(),
        "Observable { name: \"z\", observer_count: 0, event_queue_length: 0 }"
    );
    z2.mutate_name(String::from("newZ3Name"));
    assert_eq!(
        z2.snapshot(),
        "Observable { name: \"newZ3Name\", observer_count: 0, event_queue_length: 0 }"
    );
}

#[test]
fn mutation_is_shared_between_handles() {
    let a = Observable::new("old");
    let b = a.clone_handle();
    b.mutate_name(String::from("new"));
    assert_eq!(
        a.snapshot(),
        "Observable { name: \"new\", observer_count: 0, event_queue_length: 0 }"
    );
}

#[test]
fn format_u64_exact_values() {
    assert_eq!(observable::format_u64(0), "0");
    assert_eq!(observable::format_u64(7), "7");
    assert_eq!(observable::format_u64(10), "10");
    assert_eq!(observable::format_u64(123), "123");
    assert_eq!(observable::format_u64(18446744073709551615), "18446744073709551615");
}

#[test]
fn render_snapshot_exact() {
    assert_eq!(
        observable::render_snapshot("abc", 2, 5),
        "Observable { name: \"abc\", observer_count: 2, event_queue_length: 5 }"
    );
}

#[test]
fn payload_downcasts() {
    let t = EventPayload::Text(String::from("hello"));
    assert_eq!(t.as_text(), Some(&String::from("hello")));
    assert!(t.as_integer().is_none());
    assert!(t.as_flag().is_none());
    let n = EventPayload::Integer(42);
    assert_eq!(n.as_integer(), Some(42));
    assert!(n.as_text().is_none());
    assert!(n.as_flag().is_none());
    let f = EventPayload::Flag(true);
    assert_eq!(f.as_flag(), Some(true));
    assert!(f.as_text().is_none());
    assert!(f.as_integer().is_none());
}

#[test]
fn event_fields_hold_what_was_stored() {
    let e = Event {
        label: String::from("ping"),
        payload: EventPayload::Integer(1),
    };
    assert_eq!(e.label, "ping");
    assert_eq!(e.payload.as_integer(), Some(1));
    let h = ListenerHandle { id: 9 };
    assert_eq!(h.id, 9);
}
