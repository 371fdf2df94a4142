use autodep::error::ManagerError;
use std::collections::hash_map::DefaultHasher;
use std::collections::HashMap;
use std::hash::{Hash, Hasher};
use autodep::manager::{Handle, PartialHandle};
use autodep::registry::Registry;
use autodep::worker::WorkerStatus;

fn handle(pid: u32, port: u16) -> Handle<&'static str> {
    Handle { port, pid, channel: "channel" }
}

#[test]
fn registry_starts_empty() {
    let r: Registry<u8> = Registry::new(4);
    assert_eq!(r.len(), 0);
    assert_eq!(r.capacity(), 4);
    assert!(!r.is_full());
    assert!(r.find_idle().is_none());
    assert!(r.snapshot_partial().is_empty());
}

#[test]
fn registry_of_no_capacity_is_full() {
    let mut r: Registry<&'static str> = Registry::new(0);
    assert!(r.is_full());
    assert_eq!(r.insert(handle(1, 9000), WorkerStatus::Idle), Err(ManagerError::CapacityExceeded));
    assert_eq!(r.len(), 0);
}

#[test]
fn registry_refuses_beyond_capacity() {
    let mut r = Registry::new(2);
    assert_eq!(r.insert(handle(1, 9000), WorkerStatus::Idle), Ok(()));
    assert_eq!(r.insert(handle(2, 9001), WorkerStatus::Idle), Ok(()));
    assert!(r.is_full());
    assert_eq!(r.insert(handle(3, 9002), WorkerStatus::Idle), Err(ManagerError::CapacityExceeded));
    assert_eq!(r.len(), 2);
    assert!(!r.contains(3));
}

#[test]
fn registry_replaces_the_entry_of_a_known_process() {
    let mut r = Registry::new(1);
    assert_eq!(r.insert(handle(7, 9000), WorkerStatus::Idle), Ok(()));
    assert_eq!(r.insert(Handle { port: 9100, pid: 7, channel: "again" }, WorkerStatus::Working), Ok(()));
    assert_eq!(r.len(), 1);
    let e = r.get(7).unwrap();
    assert_eq!(e.handle.port, 9100);
    assert_eq!(e.handle.channel, "again");
    assert_eq!(e.status, WorkerStatus::Working);
}

#[test]
fn registry_remove_returns_the_former_entry() {
    let mut r = Registry::new(3);
    r.insert(handle(1, 9000), WorkerStatus::Idle).unwrap();
    r.insert(handle(2, 9001), WorkerStatus::Working).unwrap();
    r.insert(handle(3, 9002), WorkerStatus::Error).unwrap();
    let e = r.remove(2).unwrap();
    assert_eq!(e.handle.partial(), PartialHandle { port: 9001, pid: 2 });
    assert_eq!(e.status, WorkerStatus::Working);
    assert_eq!(r.len(), 2);
    assert!(r.remove(2).is_none());
    assert_eq!(
        r.snapshot_partial(),
        vec![PartialHandle { port: 9000, pid: 1 }, PartialHandle { port: 9002, pid: 3 }]
    );
}

#[test]
fn registry_set_status_of_known_and_unknown_process() {
    let mut r = Registry::new(2);
    r.insert(handle(1, 9000), WorkerStatus::Idle).unwrap();
    assert!(r.set_status(1, WorkerStatus::ShuttingDown));
    assert_eq!(r.status(1), Some(WorkerStatus::ShuttingDown));
    assert!(!r.set_status(5, WorkerStatus::Idle));
    assert_eq!(r.status(5), None);
    assert_eq!(r.len(), 1);
}

#[test]
fn registry_find_idle_takes_the_earliest_idle_worker() {
    let mut r = Registry::new(4);
    r.insert(handle(10, 9000), WorkerStatus::Working).unwrap();
    r.insert(handle(11, 9001), WorkerStatus::Error).unwrap();
    r.insert(handle(12, 9002), WorkerStatus::Idle).unwrap();
    r.insert(handle(13, 9003), WorkerStatus::Idle).unwrap();
    assert_eq!(r.find_idle().unwrap().pid, 12);
    r.set_status(12, WorkerStatus::ShuttingDown);
    assert_eq!(r.find_idle().unwrap().pid, 13);
    r.set_status(13, WorkerStatus::Working);
    assert!(r.find_idle().is_none());
    r.set_status(10, WorkerStatus::Idle);
    assert_eq!(r.find_idle().unwrap().pid, 10);
}

#[test]
fn registry_snapshots_keep_the_order_of_the_pool() {
    let mut r = Registry::new(3);
    r.insert(handle(3, 9003), WorkerStatus::Idle).unwrap();
    r.insert(handle(1, 9001), WorkerStatus::Working).unwrap();
    assert_eq!(
        r.snapshot_status(),
        vec![
            (PartialHandle { port: 9003, pid: 3 }, WorkerStatus::Idle),
            (PartialHandle { port: 9001, pid: 1 }, WorkerStatus::Working),
        ]
    );
}

#[test]
fn handles_compare_on_process_and_port_only() {
    let a = Handle { port: 9000, pid: 1, channel: "first" };
    let b = Handle { port: 9000, pid: 1, channel: "second" };
    let c = Handle { port: 9001, pid: 1, channel: "first" };
    let d = Handle { port: 9000, pid: 2, channel: "first" };
    assert!(a == b);
    assert!(a != c);
    assert!(a != d);
    assert_eq!(a.partial(), b.partial());
}

#[test]
fn handle_is_described_by_port_and_process() {
    let p = PartialHandle { port: 9000, pid: 4242 };
    assert_eq!(p.describe(), "Handle { port: 9000, pid: 4242 }");
}

fn hash_of<T: Hash>(value: &T) -> u64 {
    let mut hasher = DefaultHasher::new();
    value.hash(&mut hasher);
    hasher.finish()
}

#[test]
fn handles_hash_on_process_and_port_only() {
    let a = Handle { port: 9000, pid: 1, channel: "first" };
    let b = Handle { port: 9000, pid: 1, channel: "second" };
    assert_eq!(hash_of(&a), hash_of(&b));
    assert_eq!(hash_of(&a), hash_of(&(9000u16, 1u32)));
    let mut statuses = HashMap::new();
    statuses.insert(a, WorkerStatus::Idle);
    statuses.insert(b, WorkerStatus::Working);
    assert_eq!(statuses.len(), 1);
    let again = Handle { port: 9000, pid: 1, channel: "third" };
    assert_eq!(statuses.get(&again), Some(&WorkerStatus::Working));
}

#[test]
fn handle_is_cloned_with_its_channel() {
    let a = Handle { port: 9000, pid: 1, channel: "first".to_string() };
    let b = a.clone();
    assert!(a == b);
    assert_eq!(b.channel, "first");
    assert_eq!(b.partial(), PartialHandle { port: 9000, pid: 1 });
}

#[test]
fn registry_keeps_the_order_of_arrival_through_changes() {
    let mut r = Registry::new(5);
    for pid in [50u32, 10, 40, 20, 30] {
        r.insert(handle(pid, 9000 + pid as u16), WorkerStatus::Working).unwrap();
    }
    assert!(r.find_idle().is_none());
    r.set_status(20, WorkerStatus::Idle);
    r.set_status(40, WorkerStatus::Idle);
    assert_eq!(r.find_idle().unwrap().pid, 40);
    assert_eq!(r.remove(40).unwrap().handle.pid, 40);
    assert_eq!(r.find_idle().unwrap().pid, 20);
    r.insert(handle(40, 9040), WorkerStatus::Idle).unwrap();
    assert_eq!(r.find_idle().unwrap().pid, 20);
    let pids: Vec<u32> = r.snapshot_partial().iter().map(|p| p.pid).collect();
    assert_eq!(pids, vec![50, 10, 20, 30, 40]);
    assert!(r.is_full());
    assert_eq!(r.insert(handle(60, 9060), WorkerStatus::Idle), Err(ManagerError::CapacityExceeded));
    assert_eq!(r.insert(handle(10, 9999), WorkerStatus::Error), Ok(()));
    assert_eq!(r.get(10).unwrap().handle.port, 9999);
    assert_eq!(r.len(), 5);
}
