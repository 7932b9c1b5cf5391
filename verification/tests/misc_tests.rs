use hitokage_core::registry::Registry;
use hitokage_core::lua_walk::check_entry_for_skip;
use hitokage_core::lua_walk::{any_route, unit_is_direct, AnyRoute, AnyValue};
use hitokage_core::lua_walk::{check_all_read, exact_size_hint, map_length_read};
use hitokage_core::assets::{config_dir, example_dir, is_known_example};
use hitokage_core::clock::{clock_step, shutdown_action, TimerAction};
use hitokage_core::lua_walk::{check_value_for_skip, LuaValueKind, VisitedTables, WalkError, WalkOptions};
use hitokage_core::memory::{MemoryAndSwapWrapper, MemoryReading};
use hitokage_core::payload::{
    decode_function_payload, decode_reactive_payload, encode_function_payload, encode_reactive_payload,
    payload_kind, PayloadKind,
};
use hitokage_core::reactive::{index_reads_value, new_index_target, watcher_step, ChannelPoll, NewIndexTarget, ReactiveValue};

#[test]
fn function_payload_round_trip() {
    let bytes = encode_function_payload(0x0102_0304_0506_0708);
    assert_eq!(bytes, vec![0x01, 0x08, 0x07, 0x06, 0x05, 0x04, 0x03, 0x02, 0x01]);
    assert_eq!(payload_kind(&bytes), Some(PayloadKind::Function));
    assert_eq!(decode_function_payload(&bytes), 0x0102_0304_0506_0708);
}

#[test]
fn reactive_payload_round_trip() {
    let bytes = encode_reactive_payload(u64::MAX, 42);
    assert_eq!(bytes.len(), 17);
    assert_eq!(bytes[0], 0x00);
    assert_eq!(payload_kind(&bytes), Some(PayloadKind::Reactive));
    assert_eq!(decode_reactive_payload(&bytes), (u64::MAX, 42));
}

#[test]
fn payload_bytes_match_native_order() {
    let id: u64 = 0xdead_beef;
    let bytes = encode_function_payload(id);
    assert_eq!(&bytes[1..], &id.to_le_bytes());
}

#[test]
fn unknown_payload_tag() {
    assert_eq!(payload_kind(&[0x07, 0, 0]), None);
}

fn reading(free: u64, total: u64) -> MemoryReading {
    MemoryReading { free, total }
}

#[test]
fn memory_polls_differ_on_changed_readings() {
    let a = MemoryAndSwapWrapper::from_reading(Some((reading(1, 10), reading(5, 5))));
    let b = MemoryAndSwapWrapper::from_reading(Some((reading(2, 10), reading(5, 5))));
    let c = MemoryAndSwapWrapper::from_reading(Some((reading(1, 10), reading(4, 5))));
    assert!(a.differs(&b));
    assert!(a.differs(&c));
    assert!(!a.differs(&a));
    assert!(a != b);
    assert!(a == a);
}

#[test]
fn failed_memory_poll_differs_from_nothing() {
    let failed = MemoryAndSwapWrapper::from_reading(None);
    let a = MemoryAndSwapWrapper::from_reading(Some((reading(1, 10), reading(5, 5))));
    assert!(!failed.differs(&a));
    assert!(!a.differs(&failed));
    assert!(failed == a);
    assert_eq!(failed.both(), None);
    assert_eq!(a.both(), Some((reading(1, 10), reading(5, 5))));
}

#[test]
fn skip_decisions() {
    let strict = WalkOptions { deny_unsupported_types: true, deny_recursive_tables: true };
    let lax = WalkOptions { deny_unsupported_types: false, deny_recursive_tables: false };
    let mut visited = VisitedTables::new();
    assert_eq!(check_value_for_skip(LuaValueKind::Table(7), strict, &visited), Ok(false));
    assert!(visited.enter(7));
    assert!(!visited.enter(7));
    assert!(visited.contains(7));
    assert_eq!(check_value_for_skip(LuaValueKind::Table(7), strict, &visited), Err(WalkError::RecursiveTable));
    assert_eq!(check_value_for_skip(LuaValueKind::Table(7), lax, &visited), Ok(true));
    visited.leave(7);
    assert!(!visited.contains(7));
    assert_eq!(check_value_for_skip(LuaValueKind::Table(7), strict, &visited), Ok(false));
    assert_eq!(check_value_for_skip(LuaValueKind::Thread, lax, &visited), Ok(true));
    assert_eq!(check_value_for_skip(LuaValueKind::LightUserData, strict, &visited), Ok(false));
    assert_eq!(check_value_for_skip(LuaValueKind::Error, lax, &visited), Ok(true));
    assert_eq!(check_value_for_skip(LuaValueKind::Other, lax, &visited), Ok(false));
    assert_eq!(WalkError::RecursiveTable.message(), "recursive table detected");
}

#[test]
fn reactive_set_notifies_only_on_change() {
    let mut r = ReactiveValue::new("a".to_string());
    assert!(r.set("b".to_string(), true));
    assert_eq!(r.get(), "b");
    assert!(!r.set("b".to_string(), true));
    assert!(!r.set("c".to_string(), false));
    assert_eq!(r.get(), "c");
    r.assign("d".to_string());
    assert_eq!(r.get(), "d");
}

#[test]
fn reactive_field_access() {
    assert_eq!(new_index_target(2, Some("value")), NewIndexTarget::Value);
    assert_eq!(new_index_target(2, Some("other")), NewIndexTarget::ReadOnly);
    assert_eq!(new_index_target(2, None), NewIndexTarget::ReadOnly);
    assert_eq!(new_index_target(3, Some("value")), NewIndexTarget::TooManyArguments);
    assert!(index_reads_value(Some("value")));
    assert!(!index_reads_value(Some("get")));
    assert!(!index_reads_value(None));
}

#[test]
fn watcher_polls_until_disconnected() {
    let r = watcher_step(ChannelPoll::Received);
    assert!(r.forward && r.keep_polling);
    let e = watcher_step(ChannelPoll::Empty);
    assert!(!e.forward && e.keep_polling);
    let d = watcher_step(ChannelPoll::Disconnected);
    assert!(!d.forward && !d.keep_polling);
}

#[test]
fn clock_timer_follows_rendering() {
    let step = clock_step(false, Some("12:00".to_string()));
    assert_eq!(step.current_time.as_deref(), Some("12:00"));
    assert_eq!(step.action, TimerAction::Start);
    let step = clock_step(true, Some("12:01".to_string()));
    assert_eq!(step.action, TimerAction::Keep);
    let step = clock_step(true, None);
    assert_eq!(step.current_time, None);
    assert_eq!(step.action, TimerAction::Stop);
    let step = clock_step(false, None);
    assert_eq!(step.action, TimerAction::Keep);
    assert_eq!(shutdown_action(true), TimerAction::Stop);
    assert_eq!(shutdown_action(false), TimerAction::Keep);
}

#[test]
fn example_directories() {
    assert_eq!(example_dir(Some("minimal")), "./examples/minimal/");
    assert_eq!(example_dir(Some("testbench")), "./examples/");
    assert_eq!(example_dir(Some("other")), "./examples/testbench/");
    assert_eq!(example_dir(None), "./examples/testbench/");
    assert!(is_known_example("minimal"));
    assert!(!is_known_example("Minimal"));
    assert_eq!(config_dir(), ".config/hitokage/");
}

#[test]
fn map_entries_skip_when_either_side_skips() {
    let strict = WalkOptions { deny_unsupported_types: true, deny_recursive_tables: true };
    let lax = WalkOptions { deny_unsupported_types: false, deny_recursive_tables: false };
    let mut visited = VisitedTables::new();
    visited.enter(3);
    assert_eq!(check_entry_for_skip(LuaValueKind::Other, LuaValueKind::Other, strict, &visited), Ok(false));
    assert_eq!(check_entry_for_skip(LuaValueKind::Other, LuaValueKind::Thread, lax, &visited), Ok(true));
    assert_eq!(check_entry_for_skip(LuaValueKind::Error, LuaValueKind::Other, lax, &visited), Ok(true));
    assert_eq!(
        check_entry_for_skip(LuaValueKind::Other, LuaValueKind::Table(3), strict, &visited),
        Err(WalkError::RecursiveTable)
    );
    assert_eq!(check_entry_for_skip(LuaValueKind::Table(3), LuaValueKind::Thread, lax, &visited), Ok(true));
}

#[test]
fn routes_of_values() {
    assert_eq!(any_route(AnyValue::Nil), AnyRoute::Unit);
    assert_eq!(any_route(AnyValue::Table { raw_len: 2 }), AnyRoute::Sequence);
    assert_eq!(any_route(AnyValue::Table { raw_len: 0 }), AnyRoute::Table);
    assert_eq!(any_route(AnyValue::String { utf8: false }), AnyRoute::Bytes);
    assert_eq!(any_route(AnyValue::String { utf8: true }), AnyRoute::Str);
    assert_eq!(any_route(AnyValue::LightUserData { null: true }), AnyRoute::Absent);
    assert_eq!(any_route(AnyValue::LightUserData { null: false }), AnyRoute::Stock);
    assert_eq!(any_route(AnyValue::Function), AnyRoute::FunctionPayload);
    assert_eq!(any_route(AnyValue::UserData { reactive: true }), AnyRoute::ReactivePayload);
    assert_eq!(any_route(AnyValue::UserData { reactive: false }), AnyRoute::Unit);
    assert!(unit_is_direct(AnyValue::LightUserData { null: true }));
    assert!(!unit_is_direct(AnyValue::Nil));
}

#[test]
fn left_over_items_are_reported() {
    assert_eq!(check_all_read(0, 5), Ok(()));
    assert_eq!(check_all_read(2, 5), Err(5));
    assert_eq!(map_length_read(3, 2), Some(5));
    assert_eq!(map_length_read(usize::MAX, 1), None);
    assert_eq!(exact_size_hint(4, Some(4)), Some(4));
    assert_eq!(exact_size_hint(3, Some(4)), None);
    assert_eq!(exact_size_hint(3, None), None);
}

#[test]
fn watcher_forwards_every_change_then_stops() {
    let (tx, rx) = std::sync::mpsc::channel::<()>();
    let tx2 = tx.clone();
    let mut forwarded = 0;
    let mut polling = true;
    let poll = |rx: &std::sync::mpsc::Receiver<()>, forwarded: &mut usize| -> bool {
        let p = match rx.try_recv() {
            Ok(()) => ChannelPoll::Received,
            Err(std::sync::mpsc::TryRecvError::Empty) => ChannelPoll::Empty,
            Err(std::sync::mpsc::TryRecvError::Disconnected) => ChannelPoll::Disconnected,
        };
        let step = watcher_step(p);
        if step.forward {
            *forwarded += 1;
        }
        step.keep_polling
    };
    tx.send(()).unwrap();
    tx2.send(()).unwrap();
    tx.send(()).unwrap();
    assert!(poll(&rx, &mut forwarded));
    assert_eq!(forwarded, 1);
    drop(tx);
    drop(tx2);
    let mut ticks = 0;
    while polling {
        polling = poll(&rx, &mut forwarded);
        ticks += 1;
    }
    assert_eq!(forwarded, 3);
    assert_eq!(ticks, 3);
}

#[test]
fn registry_hands_a_value_back_once() {
    let mut r: Registry<String> = Registry::new();
    r.insert(7, "f".to_string());
    r.insert(8, "g".to_string());
    assert_eq!(r.take(7), Some("f".to_string()));
    assert_eq!(r.take(7), None);
    r.insert(8, "h".to_string());
    assert_eq!(r.take(8), Some("h".to_string()));
    assert_eq!(r.take(9), None);
}
