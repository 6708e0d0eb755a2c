//! The panic boundary's two outcomes, for each return convention.

use libssl_error::boundary::{
    boundary_c_int, boundary_c_long, boundary_u16, boundary_u32, boundary_u64, boundary_unit,
};
use libssl_error::queue::ErrorQueue;

#[test]
fn normal_completion_passes_value_through() {
    let mut queue = ErrorQueue::new();
    assert_eq!(boundary_c_int(Some(7), &mut queue), 7);
    assert_eq!(boundary_c_int(Some(-3), &mut queue), -3);
    assert_eq!(boundary_c_long(Some(1 << 40), &mut queue), 1 << 40);
    assert_eq!(boundary_u64(Some(u64::MAX), &mut queue), u64::MAX);
    assert_eq!(boundary_u32(Some(0xc02f), &mut queue), 0xc02f);
    assert_eq!(boundary_u16(Some(0x1301), &mut queue), 0x1301);
    boundary_unit(Some(()), &mut queue);
    assert_eq!(queue.len(), 0);
}

#[test]
fn intercepted_failure_returns_sentinel_and_one_record() {
    let mut queue = ErrorQueue::new();
    assert_eq!(boundary_c_int(None, &mut queue), 0);
    assert_eq!(queue.len(), 1);
    assert_eq!(queue.records[0].lib, 20);
    assert_eq!(queue.records[0].reason, 0xc0103);
    assert_eq!(queue.records[0].message, "InternalError");
}

#[test]
fn every_convention_signals_an_intercepted_failure_alike() {
    let mut queue = ErrorQueue::new();
    assert_eq!(boundary_c_int(None, &mut queue), 0);
    assert_eq!(boundary_c_long(None, &mut queue), 0);
    assert_eq!(boundary_u64(None, &mut queue), 0);
    assert_eq!(boundary_u32(None, &mut queue), 0);
    assert_eq!(boundary_u16(None, &mut queue), 0);
    boundary_unit(None, &mut queue);
    assert_eq!(queue.len(), 6);
    for record in &queue.records {
        assert_eq!(record.lib, 20);
        assert_eq!(record.reason, 0xc0103);
        assert_eq!(record.message, "InternalError");
    }
}
