use whatsmeow::handlers::Handlers;
use whatsmeow::events::Event;
use whatsmeow::tracker::{notable_operation, TrackedAllocator};

#[test]
fn fresh_tracker_reports_all_zeroes() {
    let t = TrackedAllocator::new();
    assert_eq!(t.allocation_count(), 0);
    assert_eq!(t.deallocation_count(), 0);
    assert_eq!(t.total_bytes_allocated(), 0);
    assert_eq!(t.total_bytes_deallocated(), 0);
    assert_eq!(t.current_bytes(), 0);
    assert_eq!(t.peak_bytes(), 0);
    assert_eq!(t.outstanding_allocations(), 0);
}

#[test]
fn peak_is_the_running_maximum_of_current_usage() {
    let mut t = TrackedAllocator::new();
    t.track_alloc(100);
    assert_eq!(t.current_bytes(), 100);
    assert_eq!(t.peak_bytes(), 100);
    t.track_dealloc(100);
    assert_eq!(t.current_bytes(), 0);
    assert_eq!(t.peak_bytes(), 100);
    t.track_alloc(50);
    assert_eq!(t.current_bytes(), 50);
    assert_eq!(t.peak_bytes(), 100);
    t.track_alloc(60);
    assert_eq!(t.current_bytes(), 110);
    assert_eq!(t.peak_bytes(), 110);
    assert_eq!(t.total_bytes_allocated(), 210);
    assert_eq!(t.total_bytes_deallocated(), 100);
}

#[test]
fn outstanding_allocations_never_go_negative() {
    let mut t = TrackedAllocator::new();
    t.track_alloc(1);
    t.track_alloc(1);
    t.track_dealloc(1);
    assert_eq!(t.outstanding_allocations(), 1);
    t.track_dealloc(1);
    t.track_dealloc(1);
    assert_eq!(t.outstanding_allocations(), 0);
}

#[test]
fn notable_operations_cross_exactly_one_threshold() {
    assert!(!notable_operation(10, 0, 0));
    assert!(notable_operation(11, 0, 0));
    assert!(!notable_operation(0, 100, 0));
    assert!(notable_operation(0, 101, 0));
    assert!(!notable_operation(0, 0, 10240));
    assert!(notable_operation(0, 0, 10241));
    assert!(!notable_operation(0, 0, -10240));
    assert!(notable_operation(0, 0, -10241));
}

#[test]
fn dispatch_routes_each_event_kind_to_its_list() {
    let mut h = Handlers::new();
    let qr = h.register_qr();
    let msg = h.register_message();
    let conn_a = h.register_connected();
    let conn_b = h.register_connected();
    let disc = h.register_disconnected();
    let receipt = h.register_receipt();
    let presence = h.register_presence();
    assert_eq!((qr, msg, conn_a, conn_b, disc, receipt, presence), (0, 0, 0, 1, 0, 0, 0));

    let unknown = Event::Unknown { event_type: "x".to_string(), data: None };
    assert_eq!(h.dispatch(&Event::Connected), vec![0, 1]);
    assert_eq!(h.dispatch(&Event::Disconnected), vec![0]);
    assert_eq!(h.dispatch(&Event::HistorySync), Vec::<u64>::new());
    assert_eq!(h.dispatch(&unknown), Vec::<u64>::new());
}
