//! Virtual interrupt injection through the GIC hypervisor interface.
//!
//! The hardware side (reading and writing the ICH_* system registers, looking
//! up the interrupt controller driver) happens outside this module; here the
//! register values are plain integers and every decision is a function of them.
use vstd::prelude::*;

use arm_gic_driver::v3::{ICH_HCR_EL2, ICH_LR_EL2, ICH_VTR_EL2, LocalRegisterCopy};

verus! {

/// The hypervisor interface exposes at most this many list registers
/// (ICH_VTR_EL2.ListRegs is a 4-bit field holding the count minus one).
pub const MAX_LIST_REGS: usize = 16;

/// Mask of the VINTID field of a list register.
pub const LR_VINTID_MASK: u64 = 0xffff_ffff;

/// Bits of a list register written for a pending, group 1 virtual interrupt
/// (State = Pending in bits 63:62, Group = 1 in bit 60).
pub const LR_PENDING_GROUP1: u64 = 0x5000_0000_0000_0000;

/// The State field (bits 63:62) of a list register value.
pub open spec fn lr_state(lr: u64) -> u64 {
    (lr >> 62u64) & 3u64
}

/// The VINTID field (bits 31:0) of a list register value.
pub open spec fn lr_vintid(lr: u64) -> u64 {
    lr & LR_VINTID_MASK
}

/// The Group field (bit 60) of a list register value.
pub open spec fn lr_group(lr: u64) -> u64 {
    (lr >> 60u64) & 1u64
}

/// The Invalid encoding of the State field.
pub open spec fn lr_state_invalid() -> u64 {
    0
}

/// The Pending encoding of the State field.
pub open spec fn lr_state_pending() -> u64 {
    1
}

/// The list register value that queues `vector` as a pending group 1 interrupt.
pub open spec fn pending_lr_value(vector: usize) -> u64 {
    ((vector as u64) & LR_VINTID_MASK) | LR_PENDING_GROUP1
}

/// Whether ELRSR (the empty list register status) reports list register `i` as empty.
pub open spec fn lr_reported_empty(elrsr: u64, i: int) -> bool {
    0 <= i < 16 && (elrsr >> (i as u64)) & 1u64 == 1u64
}

/// Some list register among the first `n` is reported empty.
pub open spec fn has_reported_empty(elrsr: u64, n: int) -> bool {
    exists|i: int| 0 <= i < n && #[trigger] lr_reported_empty(elrsr, i)
}

/// `i` is the lowest list register among the first `n` that is reported empty.
pub open spec fn is_first_reported_empty(elrsr: u64, n: int, i: int) -> bool {
    &&& 0 <= i < n
    &&& lr_reported_empty(elrsr, i)
    &&& forall|j: int| 0 <= j < i ==> !#[trigger] lr_reported_empty(elrsr, j)
}

/// Some list register value is in the Invalid state.
pub open spec fn has_invalid_lr(lrs: Seq<u64>) -> bool {
    exists|i: int| 0 <= i < lrs.len() && lr_state(#[trigger] lrs[i]) == lr_state_invalid()
}

/// `i` is the lowest list register whose value is in the Invalid state.
pub open spec fn is_first_invalid_lr(lrs: Seq<u64>, i: int) -> bool {
    &&& 0 <= i < lrs.len()
    &&& lr_state(lrs[i]) == lr_state_invalid()
    &&& forall|j: int| 0 <= j < i ==> lr_state(#[trigger] lrs[j]) != lr_state_invalid()
}

/// A list register can take a new virtual interrupt.
pub open spec fn lr_available(elrsr: u64, lrs: Seq<u64>) -> bool {
    has_reported_empty(elrsr, lrs.len() as int) || has_invalid_lr(lrs)
}

/// The list register that injection uses: the lowest one that ELRSR reports
/// empty, or, when none is, the lowest one in the Invalid state.
pub open spec fn is_selected_lr(elrsr: u64, lrs: Seq<u64>, i: int) -> bool {
    if has_reported_empty(elrsr, lrs.len() as int) {
        is_first_reported_empty(elrsr, lrs.len() as int, i)
    } else {
        is_first_invalid_lr(lrs, i)
    }
}

/// The Active encoding of the State field.
pub open spec fn lr_state_active() -> u64 {
    2
}

/// List register `i` is in use (ELRSR does not report it empty) and already
/// holds `vector`, Pending or Active.
pub open spec fn lr_queues_vector(elrsr: u64, lrs: Seq<u64>, vector: usize, i: int) -> bool {
    &&& 0 <= i < lrs.len()
    &&& !lr_reported_empty(elrsr, i)
    &&& lr_vintid(lrs[i]) == vector as u64
    &&& (lr_state(lrs[i]) == lr_state_pending() || lr_state(lrs[i]) == lr_state_active())
}

/// `vector` is already held, Pending or Active, by a list register in use.
pub open spec fn vector_queued(elrsr: u64, lrs: Seq<u64>, vector: usize) -> bool {
    exists|i: int| #[trigger] lr_queues_vector(elrsr, lrs, vector, i)
}

/// `i` is the lowest list register in use that holds `vector` Pending or Active.
pub open spec fn is_first_queuing_lr(elrsr: u64, lrs: Seq<u64>, vector: usize, i: int) -> bool {
    &&& lr_queues_vector(elrsr, lrs, vector, i)
    &&& forall|j: int| 0 <= j < i ==> !#[trigger] lr_queues_vector(elrsr, lrs, vector, j)
}

/// The number of list registers that ICH_VTR_EL2 announces.
pub open spec fn list_register_count_of(vtr: u64) -> nat {
    ((vtr & 0xfu64) + 1) as nat
}

/// A write of `value` into list register `index`.
pub struct LrWrite {
    pub index: usize,
    pub value: u64,
}

/// What an injection does on the GICv3 interface.
pub enum V3Injection {
    /// The vector is already held Pending or Active by list register `index`;
    /// nothing is written.
    AlreadyQueued { index: usize },
    /// Write the list register.
    Write(LrWrite),
}

/// `ICH_VTR_EL2::LISTREGS.read`: the ListRegs field, bits 3:0, of a VTR value.
#[verifier::external_body]
fn vtr_list_regs(vtr: u64) -> (field: u64)
    ensures
        field == vtr & 0xfu64,
{
    ICH_VTR_EL2::LISTREGS.read(vtr)
}

/// `LocalRegisterCopy::matches_any(&[ICH_LR_EL2::STATE::Invalid])` on a list
/// register value: true exactly when the State field is Invalid (zero).
#[verifier::external_body]
fn lr_is_invalid(lr: u64) -> (invalid: bool)
    ensures
        invalid == (lr_state(lr) == lr_state_invalid()),
{
    LocalRegisterCopy::<u64, ICH_LR_EL2::Register>::new(lr).matches_any(&[ICH_LR_EL2::STATE::Invalid])
}

/// `LocalRegisterCopy::read(ICH_LR_EL2::VINTID)` on a list register value:
/// bits 31:0.
#[verifier::external_body]
fn lr_read_vintid(lr: u64) -> (vintid: u64)
    ensures
        vintid == lr_vintid(lr),
{
    LocalRegisterCopy::<u64, ICH_LR_EL2::Register>::new(lr).read(ICH_LR_EL2::VINTID)
}

/// `LocalRegisterCopy::matches_any(&[ICH_LR_EL2::STATE::Pending, ICH_LR_EL2::STATE::Active])`
/// on a list register value: true exactly when the State field is Pending or
/// Active (not Invalid, not Pending and Active).
#[verifier::external_body]
fn lr_is_pending_or_active(lr: u64) -> (r: bool)
    ensures
        r == (lr_state(lr) == lr_state_pending() || lr_state(lr) == lr_state_active()),
{
    LocalRegisterCopy::<u64, ICH_LR_EL2::Register>::new(lr).matches_any(
        &[ICH_LR_EL2::STATE::Pending, ICH_LR_EL2::STATE::Active],
    )
}

/// `ICH_LR_EL2::VINTID.val(vector) + ICH_LR_EL2::STATE::Pending + ICH_LR_EL2::GROUP::SET`:
/// the field value holds the low 32 bits of `vector` in VINTID, Pending in
/// State and 1 in Group, and zero elsewhere.
#[verifier::external_body]
fn lr_value_pending_group1(vector: usize) -> (value: u64)
    ensures
        value == pending_lr_value(vector),
{
    (ICH_LR_EL2::VINTID.val(vector as u64) + ICH_LR_EL2::STATE::Pending
        + ICH_LR_EL2::GROUP::SET).value
}

/// `LocalRegisterCopy::is_set(ICH_HCR_EL2::EN)` on an HCR value: bit 0.
#[verifier::external_body]
fn hcr_en_is_set(hcr: u64) -> (set: bool)
    ensures
        set == (hcr & 1u64 == 1u64),
{
    LocalRegisterCopy::<u64, ICH_HCR_EL2::Register>::new(hcr).is_set(ICH_HCR_EL2::EN)
}

/// `ICH_HCR_EL2::EN::SET.modify(hcr)`: the value with bit 0 set and the other
/// bits kept.
#[verifier::external_body]
fn hcr_with_en(hcr: u64) -> (value: u64)
    ensures
        value == hcr | 1u64,
{
    ICH_HCR_EL2::EN::SET.modify(hcr)
}

proof fn lemma_bit_test(elrsr: u64, i: u64)
    requires
        i < 16,
    ensures
        ((1u64 << i) & elrsr != 0u64) == ((elrsr >> i) & 1u64 == 1u64),
{
    assert(((1u64 << i) & elrsr != 0u64) == ((elrsr >> i) & 1u64 == 1u64)) by (bit_vector)
        requires
            i < 16,
    ;
}

/// Number of list registers implemented, from a raw ICH_VTR_EL2 value
/// (ListRegs + 1).
pub fn list_register_count(vtr: u64) -> (n: usize)
    ensures
        n == list_register_count_of(vtr),
        1 <= n <= MAX_LIST_REGS,
{
    let field = vtr_list_regs(vtr);
    assert(vtr & 0xfu64 <= 15u64) by (bit_vector);
    (field as usize) + 1
}

/// Chooses the list register for a new virtual interrupt: the lowest one that
/// ELRSR reports empty; failing that, the lowest one whose State is Invalid.
/// `None` when neither exists. `elrsr` is the Status field of ICH_ELRSR_EL2
/// (bit `i` set: list register `i` is empty); `lrs` holds the values of the
/// implemented list registers.
pub fn select_list_register(elrsr: u64, lrs: &[u64]) -> (r: Option<usize>)
    requires
        lrs@.len() <= MAX_LIST_REGS,
    ensures
        r is None <==> !lr_available(elrsr, lrs@),
        r matches Some(i) ==> is_selected_lr(elrsr, lrs@, i as int),
{
    let n = lrs.len();
    let mut i: usize = 0;
    while i < n
        invariant
            n == lrs@.len(),
            n <= MAX_LIST_REGS,
            i <= n,
            forall|j: int| 0 <= j < i ==> !#[trigger] lr_reported_empty(elrsr, j),
        decreases n - i,
    {
        proof {
            lemma_bit_test(elrsr, i as u64);
        }
        if (1u64 << (i as u64)) & elrsr != 0 {
            assert(lr_reported_empty(elrsr, i as int));
            return Some(i);
        }
        i = i + 1;
    }
    assert(!has_reported_empty(elrsr, n as int));
    let mut k: usize = 0;
    while k < n
        invariant
            n == lrs@.len(),
            k <= n,
            !has_reported_empty(elrsr, n as int),
            forall|j: int| 0 <= j < k ==> lr_state(#[trigger] lrs@[j]) != lr_state_invalid(),
        decreases n - k,
    {
        if lr_is_invalid(lrs[k]) {
            assert(lr_state(lrs@[k as int]) == lr_state_invalid());
            return Some(k);
        }
        k = k + 1;
    }
    assert(!has_invalid_lr(lrs@));
    None
}

/// Finds the lowest list register in use (not reported empty by ELRSR) that
/// already holds `vector` Pending or Active; `None` when there is none.
pub fn find_queued_lr(vector: usize, elrsr: u64, lrs: &[u64]) -> (r: Option<usize>)
    requires
        lrs@.len() <= MAX_LIST_REGS,
    ensures
        r is None <==> !vector_queued(elrsr, lrs@, vector),
        r matches Some(i) ==> is_first_queuing_lr(elrsr, lrs@, vector, i as int),
{
    let n = lrs.len();
    let mut i: usize = 0;
    while i < n
        invariant
            n == lrs@.len(),
            n <= MAX_LIST_REGS,
            i <= n,
            forall|j: int| 0 <= j < i ==> !#[trigger] lr_queues_vector(elrsr, lrs@, vector, j),
        decreases n - i,
    {
        proof {
            lemma_bit_test(elrsr, i as u64);
        }
        let empty = (1u64 << (i as u64)) & elrsr != 0;
        if !empty && lr_read_vintid(lrs[i]) == vector as u64 && lr_is_pending_or_active(lrs[i]) {
            assert(lr_queues_vector(elrsr, lrs@, vector, i as int));
            return Some(i);
        }
        assert(!lr_queues_vector(elrsr, lrs@, vector, i as int));
        i = i + 1;
    }
    assert(!vector_queued(elrsr, lrs@, vector));
    None
}

/// Plans the injection of `vector` on a GICv3 hypervisor interface. When a
/// list register in use already holds the vector Pending or Active, nothing
/// is written. Otherwise the chosen list register (see
/// `select_list_register`) is written with the vector, Pending, group 1.
/// The caller must have checked that one of the two applies: there is no
/// free list register otherwise.
pub fn plan_v3_injection(vector: usize, elrsr: u64, lrs: &[u64]) -> (r: V3Injection)
    requires
        lrs@.len() <= MAX_LIST_REGS,
        vector_queued(elrsr, lrs@, vector) || lr_available(elrsr, lrs@),
    ensures
        vector_queued(elrsr, lrs@, vector) ==> (r matches V3Injection::AlreadyQueued { index }
            && is_first_queuing_lr(elrsr, lrs@, vector, index as int)),
        !vector_queued(elrsr, lrs@, vector) ==> (r matches V3Injection::Write(w) && {
            &&& is_selected_lr(elrsr, lrs@, w.index as int)
            &&& w.value == pending_lr_value(vector)
        }),
{
    match find_queued_lr(vector, elrsr, lrs) {
        Some(index) => V3Injection::AlreadyQueued { index },
        None => {
            match select_list_register(elrsr, lrs) {
                Some(index) => V3Injection::Write(
                    LrWrite { index, value: lr_value_pending_group1(vector) },
                ),
                None => {
                    assert(false);
                    V3Injection::AlreadyQueued { index: 0 }
                },
            }
        },
    }
}

/// The ICH_HCR_EL2 value to write so that the virtual CPU interface is
/// enabled, or `None` when the En bit is already set and nothing is written.
pub fn interface_enable_update(hcr: u64) -> (r: Option<u64>)
    ensures
        (hcr & 1u64 == 1u64) ==> r is None,
        (hcr & 1u64 != 1u64) ==> r == Some(hcr | 1u64),
{
    if hcr_en_is_set(hcr) {
        None
    } else {
        Some(hcr_with_en(hcr))
    }
}

/// The list register chosen for an injection is never one in use: ELRSR
/// reports it empty, or its State is Invalid.
pub proof fn lemma_selected_lr_is_free(elrsr: u64, lrs: Seq<u64>, i: int)
    requires
        lrs.len() <= MAX_LIST_REGS,
        is_selected_lr(elrsr, lrs, i),
    ensures
        0 <= i < lrs.len(),
        lr_reported_empty(elrsr, i) || lr_state(lrs[i]) == lr_state_invalid(),
{
}

/// The choice of list register is determined by ELRSR and the list register
/// values: two choices from the same state are the same register.
pub proof fn lemma_selected_lr_unique(elrsr: u64, lrs: Seq<u64>, i: int, j: int)
    requires
        is_selected_lr(elrsr, lrs, i),
        is_selected_lr(elrsr, lrs, j),
    ensures
        i == j,
{
    if i < j {
        if has_reported_empty(elrsr, lrs.len() as int) {
            assert(lr_reported_empty(elrsr, i));
        } else {
            assert(lr_state(lrs[i]) == lr_state_invalid());
        }
    } else if j < i {
        if has_reported_empty(elrsr, lrs.len() as int) {
            assert(lr_reported_empty(elrsr, j));
        } else {
            assert(lr_state(lrs[j]) == lr_state_invalid());
        }
    }
}

/// The value written for an injection reads back as the injected vector
/// (its low 32 bits), in the Pending state, in group 1.
pub proof fn lemma_pending_lr_value_fields(vector: usize)
    ensures
        lr_vintid(pending_lr_value(vector)) == (vector as u64) & LR_VINTID_MASK,
        lr_state(pending_lr_value(vector)) == lr_state_pending(),
        lr_group(pending_lr_value(vector)) == 1,
{
    let v = vector as u64;
    assert(((v & 0xffff_ffffu64) | 0x5000_0000_0000_0000u64) & 0xffff_ffffu64 == v & 0xffff_ffffu64)
        by (bit_vector);
    assert((((v & 0xffff_ffffu64) | 0x5000_0000_0000_0000u64) >> 62u64) & 3u64 == 1u64)
        by (bit_vector);
    assert((((v & 0xffff_ffffu64) | 0x5000_0000_0000_0000u64) >> 60u64) & 1u64 == 1u64)
        by (bit_vector);
}

/// The list register value for `vector` holds exactly the low 32 bits of the
/// vector in bits 31:0, 0b01 (Pending) in bits 63:62 and 1 in bit 60 (Group 1);
/// every other bit (HW 61, NMI 59, priority 55:48, EOI 41, pINTID 47:32) is
/// zero.
pub proof fn lemma_pending_lr_value_bits(vector: usize)
    ensures
        pending_lr_value(vector) & 0xffff_ffffu64 == (vector as u64) & 0xffff_ffffu64,
        pending_lr_value(vector) >> 62u64 == 1u64,
        (pending_lr_value(vector) >> 60u64) & 1u64 == 1u64,
        (pending_lr_value(vector) >> 61u64) & 1u64 == 0u64,
        pending_lr_value(vector) & 0x2fff_ffff_0000_0000u64 == 0u64,
        pending_lr_value(vector) == ((vector as u64) & 0xffff_ffffu64) | (1u64 << 62u64) | (1u64
            << 60u64),
{
    let v = vector as u64;
    let x = (v & 0xffff_ffffu64) | 0x5000_0000_0000_0000u64;
    assert(x & 0xffff_ffffu64 == v & 0xffff_ffffu64) by (bit_vector)
        requires
            x == (v & 0xffff_ffffu64) | 0x5000_0000_0000_0000u64,
    ;
    assert(x >> 62u64 == 1u64) by (bit_vector)
        requires
            x == (v & 0xffff_ffffu64) | 0x5000_0000_0000_0000u64,
    ;
    assert((x >> 60u64) & 1u64 == 1u64) by (bit_vector)
        requires
            x == (v & 0xffff_ffffu64) | 0x5000_0000_0000_0000u64,
    ;
    assert((x >> 61u64) & 1u64 == 0u64) by (bit_vector)
        requires
            x == (v & 0xffff_ffffu64) | 0x5000_0000_0000_0000u64,
    ;
    assert(x & 0x2fff_ffff_0000_0000u64 == 0u64) by (bit_vector)
        requires
            x == (v & 0xffff_ffffu64) | 0x5000_0000_0000_0000u64,
    ;
    assert(x == (v & 0xffff_ffffu64) | (1u64 << 62u64) | (1u64 << 60u64)) by (bit_vector)
        requires
            x == (v & 0xffff_ffffu64) | 0x5000_0000_0000_0000u64,
    ;
}

/// The number of list registers is the ListRegs field (bits 3:0) of
/// ICH_VTR_EL2 plus one: it depends on no other bit, runs from 1 to 16, and
/// a field value of `k` announces `k + 1` registers.
pub proof fn lemma_list_register_count_field(vtr: u64, other: u64)
    ensures
        list_register_count_of(vtr) == (vtr & 0xfu64) + 1,
        1 <= list_register_count_of(vtr) <= 16,
        vtr & 0xfu64 == other & 0xfu64 ==> list_register_count_of(vtr) == list_register_count_of(
            other,
        ),
        vtr < 16 ==> list_register_count_of(vtr) == vtr + 1,
{
    assert(vtr & 0xfu64 <= 15u64) by (bit_vector);
    assert(vtr < 16 ==> vtr & 0xfu64 == vtr) by (bit_vector);
}

/// Once an injection has written its list register and ELRSR no longer
/// reports that register empty, a later injection does not choose the same
/// register again, whatever it injects.
pub proof fn lemma_injected_lr_not_reselected(
    elrsr_after: u64,
    lrs: Seq<u64>,
    index: int,
    vector: usize,
)
    requires
        0 <= index < lrs.len(),
        lrs.len() <= MAX_LIST_REGS,
        !lr_reported_empty(elrsr_after, index),
    ensures
        !is_selected_lr(elrsr_after, lrs.update(index, pending_lr_value(vector)), index),
{
    lemma_pending_lr_value_fields(vector);
    let after = lrs.update(index, pending_lr_value(vector));
    assert(after[index] == pending_lr_value(vector));
}

/// Once an injection of `vector` has written its list register and ELRSR no
/// longer reports that register empty, injecting the same vector again writes
/// nothing: it is already queued. (Vectors that do not fit the 32-bit VINTID
/// field never compare equal to what was written.)
pub proof fn lemma_reinjection_is_skipped(
    elrsr_after: u64,
    lrs: Seq<u64>,
    index: int,
    vector: usize,
)
    requires
        0 <= index < lrs.len(),
        lrs.len() <= MAX_LIST_REGS,
        !lr_reported_empty(elrsr_after, index),
        vector as u64 <= LR_VINTID_MASK,
    ensures
        vector_queued(elrsr_after, lrs.update(index, pending_lr_value(vector)), vector),
{
    lemma_pending_lr_value_fields(vector);
    let after = lrs.update(index, pending_lr_value(vector));
    let v = vector as u64;
    assert(v <= 0xffff_ffffu64 ==> v & 0xffff_ffffu64 == v) by (bit_vector);
    assert(lr_queues_vector(elrsr_after, after, vector, index));
}

/// Enabling the virtual CPU interface leaves it enabled: the value written
/// has En set, and a second enabling writes nothing.
pub proof fn lemma_interface_enable_idempotent(hcr: u64)
    ensures
        (hcr | 1u64) & 1u64 == 1u64,
        (hcr | 1u64) & !1u64 == hcr & !1u64,
{
    assert((hcr | 1u64) & 1u64 == 1u64) by (bit_vector);
    assert((hcr | 1u64) & !1u64 == hcr & !1u64) by (bit_vector);
}

/// Which interrupt controller the injection goes through.
#[derive(PartialEq, Eq, Structural, Clone, Copy, Debug)]
pub enum GicVersion {
    V2,
    V3,
}

/// How a virtual interrupt is injected.
#[derive(PartialEq, Eq, Structural, Clone, Copy, Debug)]
pub enum InjectRoute {
    /// Through the GICv2 hypervisor interface, into list register `lr`, with
    /// the interrupt ID `intid`.
    V2 { lr: usize, intid: u32 },
    /// Through the GICv3 system register interface, for `vector`.
    V3 { vector: usize },
}

/// Chooses how to inject `irq` through the interrupt controller that was
/// found. The caller must have found one: without it there is nothing to
/// inject through.
pub fn route_injection(gic: Option<GicVersion>, irq: usize) -> (r: InjectRoute)
    requires
        gic is Some,
    ensures
        gic == Some(GicVersion::V2) ==> r == (InjectRoute::V2 { lr: 0, intid: irq as u32 }),
        gic == Some(GicVersion::V3) ==> r == (InjectRoute::V3 { vector: irq }),
{
    match gic {
        Some(GicVersion::V2) => InjectRoute::V2 { lr: 0, intid: irq as u32 },
        Some(GicVersion::V3) => InjectRoute::V3 { vector: irq },
        None => {
            assert(false);
            InjectRoute::V3 { vector: irq }
        },
    }
}

} // verus!
