use axvisor::gic::{
    find_queued_lr, interface_enable_update, list_register_count, plan_v3_injection,
    route_injection, select_list_register, GicVersion, InjectRoute, LrWrite, V3Injection,
    LR_PENDING_GROUP1, MAX_LIST_REGS,
};

fn written(plan: V3Injection) -> LrWrite {
    match plan {
        V3Injection::Write(w) => w,
        V3Injection::AlreadyQueued { index } => panic!("already queued in {index}"),
    }
}

const PENDING: u64 = 1 << 62;
const ACTIVE: u64 = 2 << 62;

#[test]
fn list_register_count_reads_listregs_field() {
    assert_eq!(list_register_count(0), 1);
    assert_eq!(list_register_count(3), 4);
    assert_eq!(list_register_count(0xf), 16);
    // Only bits 3:0 count.
    assert_eq!(list_register_count(0xffff_fff3), 4);
    assert_eq!(list_register_count(u64::MAX), MAX_LIST_REGS);
}

#[test]
fn select_prefers_lowest_empty_register() {
    let lrs = [PENDING | 27, 0, PENDING | 30, 0];
    // ELRSR reports registers 2 and 3 empty.
    assert_eq!(select_list_register(0b1100, &lrs), Some(2));
    assert_eq!(select_list_register(0b0001, &lrs), Some(0));
}

#[test]
fn select_ignores_empty_bits_beyond_implemented_registers() {
    let lrs = [PENDING | 1, ACTIVE | 2];
    assert_eq!(select_list_register(0b100, &lrs), None);
    assert_eq!(select_list_register(0xffff_0000, &lrs), None);
}

#[test]
fn select_falls_back_to_invalid_register() {
    let lrs = [PENDING | 1, ACTIVE | 2, 5, PENDING | 3];
    assert_eq!(select_list_register(0, &lrs), Some(2));
}

#[test]
fn select_fails_when_all_registers_busy() {
    let lrs = [PENDING | 1, ACTIVE | 2, PENDING | ACTIVE | 3];
    assert_eq!(select_list_register(0, &lrs), None);
    assert_eq!(select_list_register(0, &[]), None);
}

#[test]
fn plan_writes_pending_group1_value() {
    let lrs = [PENDING | 1, 0];
    let w = written(plan_v3_injection(27, 0b10, &lrs));
    assert_eq!(w.index, 1);
    assert_eq!(w.value, 27 | LR_PENDING_GROUP1);
    assert_eq!(w.value, 0x5000_0000_0000_001b);
    // State field is Pending, Group is 1, VINTID is the vector.
    assert_eq!(w.value >> 62, 1);
    assert_eq!((w.value >> 60) & 1, 1);
    assert_eq!(w.value & 0xffff_ffff, 27);
}

#[test]
fn plan_keeps_low_32_bits_of_vector() {
    let lrs = [0u64];
    let w = written(plan_v3_injection(0x1_0000_0005, 1, &lrs));
    assert_eq!(w.index, 0);
    assert_eq!(w.value, 5 | LR_PENDING_GROUP1);
}

#[test]
fn no_free_register_and_not_queued_is_detected() {
    let lrs = [PENDING | 1; 4];
    assert_eq!(find_queued_lr(30, 0, &lrs), None);
    assert_eq!(select_list_register(0, &lrs), None);
}

#[test]
fn injected_register_is_not_chosen_again() {
    let mut lrs = [0u64, 0u64];
    let first = written(plan_v3_injection(27, 0b11, &lrs));
    lrs[first.index] = first.value;
    // The hardware clears the ELRSR bit of the written register.
    let second = written(plan_v3_injection(28, 0b10, &lrs));
    assert_ne!(second.index, first.index);
    // Even with no empty report at all, the pending register is not reused.
    let third = written(plan_v3_injection(29, 0, &lrs));
    assert_eq!(third.index, 1);
}

#[test]
fn vector_already_pending_or_active_is_not_injected_again() {
    let lrs = [PENDING | 27, 0];
    assert!(matches!(
        plan_v3_injection(27, 0b10, &lrs),
        V3Injection::AlreadyQueued { index: 0 }
    ));
    let lrs = [0, ACTIVE | 27];
    assert!(matches!(
        plan_v3_injection(27, 0b01, &lrs),
        V3Injection::AlreadyQueued { index: 1 }
    ));
    // Even with no free register the queued vector is reported, not refused.
    let lrs = [PENDING | 1, ACTIVE | 27];
    assert!(matches!(
        plan_v3_injection(27, 0, &lrs),
        V3Injection::AlreadyQueued { index: 1 }
    ));
    assert_eq!(find_queued_lr(27, 0, &lrs), Some(1));
}

#[test]
fn queued_check_needs_register_in_use_and_exact_vector() {
    // A register that ELRSR reports empty does not count.
    let lrs = [PENDING | 27, 0];
    assert_eq!(find_queued_lr(27, 0b01, &lrs), None);
    assert_eq!(written(plan_v3_injection(27, 0b01, &lrs)).index, 0);
    // Invalid or pending-and-active registers do not count.
    let lrs = [27, (3 << 62) | 27, 0];
    assert_eq!(find_queued_lr(27, 0b100, &lrs), None);
    // Only the low 32 bits are held; a wider vector never matches.
    let lrs = [PENDING | 5, 0];
    assert_eq!(find_queued_lr(0x1_0000_0005, 0b10, &lrs), None);
    assert_eq!(find_queued_lr(5, 0b10, &lrs), Some(0));
}

#[test]
fn injecting_same_vector_twice_writes_once() {
    let mut lrs = [0u64, 0u64];
    let first = written(plan_v3_injection(40, 0b11, &lrs));
    lrs[first.index] = first.value;
    assert!(matches!(
        plan_v3_injection(40, 0b10, &lrs),
        V3Injection::AlreadyQueued { index: 0 }
    ));
}

#[test]
fn interface_enable_update_sets_en_once() {
    assert_eq!(interface_enable_update(0), Some(1));
    assert_eq!(interface_enable_update(0xf0), Some(0xf1));
    assert_eq!(interface_enable_update(1), None);
    assert_eq!(interface_enable_update(0xf1), None);
    let enabled = interface_enable_update(0x8000_0000).unwrap();
    assert_eq!(interface_enable_update(enabled), None);
}

#[test]
fn route_injection_follows_driver() {
    assert_eq!(
        route_injection(Some(GicVersion::V2), 33),
        InjectRoute::V2 { lr: 0, intid: 33 }
    );
    assert_eq!(
        route_injection(Some(GicVersion::V2), 0x1_0000_0021),
        InjectRoute::V2 { lr: 0, intid: 33 }
    );
    assert_eq!(
        route_injection(Some(GicVersion::V3), 27),
        InjectRoute::V3 { vector: 27 }
    );
}
