use host_telemetry::clock::{timestamp, ClockTime};
use host_telemetry::facts::{read_memory_facts, MemoryFacts};
use host_telemetry::messages::{
    FirstServerRequest, MemoryAmount, MemoryUnit, SecondServerRequest, ServerNum,
};
use host_telemetry::service::{memory_response, process_response};

fn facts(free: u64) -> MemoryFacts {
    MemoryFacts { hostname: "node-a".to_string(), username: "alice".to_string(), free_bytes: free }
}

#[test]
fn unit_sizes_and_labels() {
    assert_eq!(MemoryUnit::Bytes.size_in_bytes(), 1);
    assert_eq!(MemoryUnit::MegaBytes.size_in_bytes(), 1024 * 1024);
    assert_eq!(MemoryUnit::GigaBytes.size_in_bytes(), 1024 * 1024 * 1024);
    assert_eq!(MemoryUnit::Bytes.label(), "bytes");
    assert_eq!(MemoryUnit::MegaBytes.label(), "MB");
    assert_eq!(MemoryUnit::GigaBytes.label(), "GB");
}

#[test]
fn amounts_give_back_bytes_in_every_unit() {
    let bytes: u64 = 3 * 1024 * 1024 * 1024 + 5 * 1024 * 1024 + 7;
    for unit in [MemoryUnit::Bytes, MemoryUnit::MegaBytes, MemoryUnit::GigaBytes] {
        let a = MemoryAmount { bytes, unit };
        assert_eq!(a.whole() * unit.size_in_bytes() + a.remainder(), bytes);
        assert!(a.remainder() < unit.size_in_bytes());
    }
    let mb = MemoryAmount { bytes, unit: MemoryUnit::MegaBytes };
    assert_eq!(mb.whole(), 3 * 1024 + 5);
    assert_eq!(mb.remainder(), 7);
    let gb = MemoryAmount { bytes, unit: MemoryUnit::GigaBytes };
    assert_eq!(gb.whole(), 3);
}

#[test]
fn timestamp_is_shifted_and_padded() {
    assert_eq!(timestamp(0), "03:00:00");
    assert_eq!(timestamp(86399), "02:59:59");
    assert_eq!(timestamp(1700000000), "01:13:20");
    assert_eq!(timestamp(1700003599), "02:13:19");
    assert_eq!(timestamp(u64::MAX).len(), 8);
}

#[test]
fn clock_parts() {
    let c = ClockTime::of_unix(1700000000);
    assert_eq!((c.hours, c.minutes, c.seconds), (1, 13, 20));
    assert_eq!(c.render(), "01:13:20");
}

#[test]
fn later_request_shows_later_time() {
    let a = ClockTime::of_unix(1700000000);
    let b = ClockTime::of_unix(1700000001);
    assert!((a.hours, a.minutes, a.seconds) < (b.hours, b.minutes, b.seconds));
    // day rollover: 21:00:00 UTC is midnight after the shift
    let before = ClockTime::of_unix(75599);
    let after = ClockTime::of_unix(75600);
    assert_eq!(before.render(), "23:59:59");
    assert_eq!(after.render(), "00:00:00");
}

#[test]
fn memory_response_fields() {
    let r = memory_response(&FirstServerRequest { unit: MemoryUnit::GigaBytes }, facts(5), 0);
    assert_eq!(r.hostname, "node-a");
    assert_eq!(r.username, "alice");
    assert_eq!(r.free_memory, MemoryAmount { bytes: 5, unit: MemoryUnit::GigaBytes });
    assert_eq!(r.unit, "GB");
    assert_eq!(r.timestamp, "03:00:00");
}

#[test]
fn follow_up_request_in_megabytes() {
    let first = memory_response(&FirstServerRequest { unit: MemoryUnit::Bytes }, facts(2147483648), 10);
    assert_eq!(first.free_memory.whole(), 2147483648);
    assert_eq!(first.unit, "bytes");
    let second =
        memory_response(&FirstServerRequest { unit: MemoryUnit::MegaBytes }, facts(2147483648), 11);
    assert_eq!(second.free_memory.whole(), 2048);
    assert_eq!(second.free_memory.remainder(), 0);
    assert_eq!(second.unit, "MB");
}

#[test]
fn responses_name_their_own_unit() {
    let units = [MemoryUnit::Bytes, MemoryUnit::MegaBytes, MemoryUnit::GigaBytes];
    let labels: Vec<String> = units
        .iter()
        .map(|u| memory_response(&FirstServerRequest { unit: *u }, facts(1 << 30), 0).unit)
        .collect();
    assert_eq!(labels, vec!["bytes", "MB", "GB"]);
}

#[test]
fn process_response_fields() {
    let r = process_response(&SecondServerRequest { request: Some(()) }, -5, vec![10, 12, 11], 86399);
    assert_eq!(r.priority, -5);
    assert_eq!(r.thread_ids, vec![10, 12, 11]);
    assert_eq!(r.timestamp, "02:59:59");
}

#[test]
fn service_ports_and_buffers() {
    assert_eq!(ServerNum::Server1.port(), 8080);
    assert_eq!(ServerNum::Server2.port(), 8081);
    assert_eq!(ServerNum::Server1.buffer_capacity(), 1024);
    assert_eq!(ServerNum::Server2.buffer_capacity(), 2048);
}

#[test]
fn host_facts_when_available() {
    if let Some(f) = read_memory_facts() {
        assert!(!f.hostname.is_empty());
        assert!(!f.username.is_empty());
    }
}
