//! GIC Distributor register programming.
//!
//! Each operation computes the register access that programs the distributor:
//! the address of the register, relative to the distributor's base address,
//! and the value to store there. The caller performs the (volatile) access.

use vstd::prelude::*;

verus! {

pub const GICD_CTLR: usize = 0x0000;
/// Affinity routing enable, non-secure state (bit 5 of GICD_CTLR).
pub const GICD_CTLR_ARE_NS: usize = 0x20;
/// Non-secure group 1 interrupts enable (bit 1 of GICD_CTLR).
pub const GICD_CTLR_GRP1NS_ENA: usize = 0x2;

pub const GICD_TYPER: usize = 0x0004;
pub const GICD_IIDR: usize = 0x0008;
pub const GICD_TYPER2: usize = 0x000c;
pub const GICD_IGROUPR: usize = 0x0080;
pub const GICD_ISENABLER: usize = 0x0100;
pub const GICD_ICENABLER: usize = 0x0180;
pub const GICD_ISPENDR: usize = 0x0200;
pub const GICD_ICPENDR: usize = 0x0280;
pub const GICD_ISACTIVER: usize = 0x0300;
pub const GICD_ICACTIVER: usize = 0x0380;
pub const GICD_IPRIORITYR: usize = 0x0400;
pub const GICD_ITARGETSR: usize = 0x0800;
pub const GICD_ICFGR: usize = 0x0c00;
pub const GICD_NSACR: usize = 0x0e00;
pub const GICD_SGIR: usize = 0x0f00;
pub const GICD_CPENDSGIR: usize = 0x0f10;
pub const GICD_SPENDSGIR: usize = 0x0f20;
pub const GICD_IROUTER: usize = 0x6000;

pub const GICDV3_CIDR0: usize = 0xfff0;
pub const GICDV3_PIDR0: usize = 0xffe0;
pub const GICDV3_PIDR2: usize = 0xffe8;
pub const GICDV3_PIDR4: usize = 0xffd0;

/// A byte store to a distributor register.
pub struct RegWrite8 {
    pub addr: usize,
    pub value: u8,
}

/// A 32-bit store to a distributor register.
pub struct RegWrite32 {
    pub addr: usize,
    pub value: u32,
}

/// A 64-bit store to a distributor register.
pub struct RegWrite64 {
    pub addr: usize,
    pub value: u64,
}

/// Whether bit `j` of `v` is set.
pub open spec fn bit_set(v: u32, j: u32) -> bool {
    (v >> j) & 1u32 == 1u32
}

/// Index of the 32-bit register that holds the one-bit field of `irq`
/// in a bank of one-bit-per-interrupt registers (IGROUPR, ISENABLER, ISPENDR, ...).
pub open spec fn bank_index(irq: int) -> int {
    irq / 32
}

/// Position of the one-bit field of `irq` inside its bank register.
pub open spec fn bank_bit(irq: int) -> u32 {
    (irq % 32) as u32
}

/// The 32-bit mask whose only set bit is the field of `irq`.
pub open spec fn irq_mask(irq: int) -> u32 {
    1u32 << bank_bit(irq)
}

/// Address of register `index` of a bank of 32-bit registers starting at `offset`.
pub open spec fn bank_reg_addr(gicd_base: int, offset: int, index: int) -> int {
    gicd_base + offset + index * 4
}

/// `val` with bit `pos` set when `on` holds and cleared otherwise.
pub open spec fn with_bit(val: u32, pos: u32, on: bool) -> u32 {
    if on {
        val | (1u32 << pos)
    } else {
        val & !(1u32 << pos)
    }
}

/// The value of GICD_CTLR that enables affinity routing for the non-secure
/// state and group 1 non-secure interrupts.
pub open spec fn ctlr_are_ns_value() -> u32 {
    (GICD_CTLR_ARE_NS | GICD_CTLR_GRP1NS_ENA) as u32
}

/// Enable affinity routing (ARE_NS) and non-secure group 1 in GICD_CTLR.
pub fn enable_gic_are_ns(gicd_base: usize) -> (w: RegWrite32)
    ensures
        w.addr == gicd_base + GICD_CTLR,
        w.value == ctlr_are_ns_value(),
        w.value == 0x22,
{
    assert((0x20usize | 0x2usize) == 0x22usize) by (bit_vector);
    let value: u32 = (GICD_CTLR_ARE_NS | GICD_CTLR_GRP1NS_ENA) as u32;
    RegWrite32 { addr: gicd_base + GICD_CTLR, value }
}

/// Store `value` into the set-pending register `index` (GICD_ISPENDR<index>).
pub fn set_ispender(gicd_base: usize, index: usize, value: u32) -> (w: RegWrite32)
    requires
        bank_reg_addr(gicd_base as int, GICD_ISPENDR as int, index as int) <= usize::MAX,
    ensures
        w.addr == gicd_base + GICD_ISPENDR + index * 4,
        w.addr == bank_reg_addr(gicd_base as int, GICD_ISPENDR as int, index as int),
        w.value == value,
{
    RegWrite32 { addr: gicd_base + GICD_ISPENDR + index * 4, value }
}

/// Route `irq` according to `value` (GICD_IROUTER<irq>, one 64-bit register per interrupt).
pub fn set_irouter(gicd_base: usize, irq: usize, value: u64) -> (w: RegWrite64)
    requires
        gicd_base + GICD_IROUTER + irq * 8 <= usize::MAX,
    ensures
        w.addr == gicd_base + GICD_IROUTER + irq * 8,
        w.value == value,
{
    RegWrite64 { addr: gicd_base + GICD_IROUTER + irq * 8, value }
}

/// Address of the GICD_IGROUPR register that holds the group bit of `irq`.
pub fn igroupr_addr(gicd_base: usize, irq: usize) -> (addr: usize)
    requires
        bank_reg_addr(gicd_base as int, GICD_IGROUPR as int, bank_index(irq as int)) <= usize::MAX,
    ensures
        addr == gicd_base + GICD_IGROUPR + (irq / 32) * 4,
        addr == bank_reg_addr(gicd_base as int, GICD_IGROUPR as int, bank_index(irq as int)),
{
    gicd_base + GICD_IGROUPR + (irq / 32) * 4
}

/// Put `irq` in group 1 (non-secure) when `group` is not 0, and in group 0
/// (secure) otherwise. `current` is the value read from the IGROUPR register
/// at `igroupr_addr(gicd_base, irq)`; the store writes it back with only the
/// bit of `irq` changed.
pub fn set_igroup(gicd_base: usize, irq: usize, group: u32, current: u32) -> (w: RegWrite32)
    requires
        bank_reg_addr(gicd_base as int, GICD_IGROUPR as int, bank_index(irq as int)) <= usize::MAX,
    ensures
        w.addr == gicd_base + GICD_IGROUPR + (irq / 32) * 4,
        w.addr == bank_reg_addr(gicd_base as int, GICD_IGROUPR as int, bank_index(irq as int)),
        w.value == if group != 0 { current | (1u32 << ((irq % 32) as u32)) } else { current & !(1u32 << ((irq % 32) as u32)) },
        w.value == with_bit(current, bank_bit(irq as int), group != 0),
        bit_set(w.value, bank_bit(irq as int)) == (group != 0),
        forall|j: u32| j < 32 && j != bank_bit(irq as int) ==> bit_set(w.value, j) == bit_set(current, j),
{
    let reg_idx: usize = irq / 32;
    let bit_pos: u32 = (irq % 32) as u32;
    let addr: usize = gicd_base + GICD_IGROUPR + reg_idx * 4;
    let mut val: u32 = current;
    if group != 0 {
        val = val | (1u32 << bit_pos);
    } else {
        val = val & !(1u32 << bit_pos);
    }
    proof {
        lemma_with_bit(current, bit_pos, group != 0);
    }
    RegWrite32 { addr, value: val }
}

/// Enable forwarding of `irq` (GICD_ISENABLER): a one written to its bit
/// enables it, zeros leave the other interrupts as they are.
pub fn set_isenabler(gicd_base: usize, irq: usize) -> (w: RegWrite32)
    requires
        bank_reg_addr(gicd_base as int, GICD_ISENABLER as int, bank_index(irq as int)) <= usize::MAX,
    ensures
        w.addr == gicd_base + GICD_ISENABLER + (irq / 32) * 4,
        w.addr == bank_reg_addr(gicd_base as int, GICD_ISENABLER as int, bank_index(irq as int)),
        w.value == 1u32 << ((irq % 32) as u32),
        w.value == irq_mask(irq as int),
{
    RegWrite32 { addr: gicd_base + GICD_ISENABLER + (irq / 32) * 4, value: 1u32 << ((irq % 32) as u32) }
}

/// Set the 8-bit priority of `irq` (GICD_IPRIORITYR, one byte per interrupt;
/// 0x00 is the highest priority, 0xff the lowest).
pub fn set_ipriority(gicd_base: usize, irq: usize, priority: u8) -> (w: RegWrite8)
    requires
        gicd_base + GICD_IPRIORITYR + irq <= usize::MAX,
    ensures
        w.addr == gicd_base + GICD_IPRIORITYR + irq,
        w.value == priority,
{
    RegWrite8 { addr: gicd_base + GICD_IPRIORITYR + irq, value: priority }
}

/// Layout of a bank of 32-bit registers: register `index` lies `4 * index`
/// bytes past the bank's offset from the distributor base, consecutive
/// registers are 4 bytes apart, and different registers never share an
/// address.
pub proof fn lemma_bank_reg_addr_layout(gicd_base: int, offset: int, index: int, other: int)
    requires
        index >= 0,
        other >= 0,
    ensures
        bank_reg_addr(gicd_base, offset, index) == gicd_base + offset + index * 4,
        bank_reg_addr(gicd_base, offset, index) - gicd_base - offset == 4 * index,
        bank_reg_addr(gicd_base, offset, index + 1) == bank_reg_addr(gicd_base, offset, index) + 4,
        index != other ==> bank_reg_addr(gicd_base, offset, index) != bank_reg_addr(gicd_base, offset, other),
        index < other ==> bank_reg_addr(gicd_base, offset, index) + 4 <= bank_reg_addr(gicd_base, offset, other),
{
}

/// The bank register of `irq` is the one covering interrupts
/// `32 * k .. 32 * k + 31` with `k = irq / 32`: it lies `4 * (irq / 32)` bytes
/// past the bank's offset, and its register index is the only `k` with
/// `32 * k <= irq < 32 * k + 32`.
pub proof fn lemma_bank_reg_of_irq(gicd_base: int, offset: int, irq: int, k: int)
    requires
        irq >= 0,
    ensures
        bank_index(irq) == irq / 32,
        bank_bit(irq) == irq % 32,
        bank_reg_addr(gicd_base, offset, bank_index(irq)) == gicd_base + offset + (irq / 32) * 4,
        32 * bank_index(irq) <= irq < 32 * bank_index(irq) + 32,
        (32 * k <= irq < 32 * k + 32) ==> k == bank_index(irq),
{
}

/// Bit `j` of a register value is the bit that binary arithmetic gives it:
/// 0 has no bit set, `1 << i` has bit `i` only, and or, and, not act bit by
/// bit.
pub proof fn lemma_bit_set_bitwise(v: u32, w: u32, i: u32, j: u32)
    requires
        i < 32,
        j < 32,
    ensures
        !bit_set(0u32, j),
        bit_set(1u32 << i, j) <==> i == j,
        bit_set(v | w, j) <==> (bit_set(v, j) || bit_set(w, j)),
        bit_set(v & w, j) <==> (bit_set(v, j) && bit_set(w, j)),
        bit_set(!v, j) <==> !bit_set(v, j),
        bit_set(v, j) <==> (v / (1u32 << j)) % 2 == 1,
{
    assert(!bit_set(0u32, j)) by (bit_vector);
    assert(bit_set(1u32 << i, j) <==> i == j) by (bit_vector)
        requires i < 32, j < 32;
    assert(bit_set(v | w, j) <==> (bit_set(v, j) || bit_set(w, j))) by (bit_vector);
    assert(bit_set(v & w, j) <==> (bit_set(v, j) && bit_set(w, j))) by (bit_vector);
    assert(bit_set(!v, j) <==> !bit_set(v, j)) by (bit_vector)
        requires j < 32;
    assert(bit_set(v, j) <==> (v / (1u32 << j)) % 2 == 1) by (bit_vector)
        requires j < 32;
}

/// Setting or clearing one bit changes that bit and no other.
pub proof fn lemma_with_bit(val: u32, pos: u32, on: bool)
    requires
        pos < 32,
    ensures
        bit_set(with_bit(val, pos, on), pos) == on,
        forall|j: u32| j < 32 && j != pos ==> bit_set(with_bit(val, pos, on), j) == bit_set(val, j),
{
    assert(bit_set(val | (1u32 << pos), pos)) by (bit_vector)
        requires pos < 32;
    assert(!bit_set(val & !(1u32 << pos), pos)) by (bit_vector)
        requires pos < 32;
    assert forall|j: u32| j < 32 && j != pos implies bit_set(val | (1u32 << pos), j) == bit_set(val, j) by {
        assert(bit_set(val | (1u32 << pos), j) == bit_set(val, j)) by (bit_vector)
            requires j < 32, pos < 32, j != pos;
    }
    assert forall|j: u32| j < 32 && j != pos implies bit_set(val & !(1u32 << pos), j) == bit_set(val, j) by {
        assert(bit_set(val & !(1u32 << pos), j) == bit_set(val, j)) by (bit_vector)
            requires j < 32, pos < 32, j != pos;
    }
}

/// An interrupt's bank register and bit position identify it: register
/// `irq / 32` holds it at bit `irq % 32`, and the mask written for it has
/// that bit set and no other.
pub proof fn lemma_irq_mask_identifies_irq(irq: int)
    requires
        irq >= 0,
    ensures
        bank_index(irq) * 32 + bank_bit(irq) == irq,
        bank_bit(irq) < 32,
        forall|j: u32| j < 32 ==> (bit_set(irq_mask(irq), j) <==> j == bank_bit(irq)),
{
    let pos = bank_bit(irq);
    assert(pos < 32);
    assert forall|j: u32| j < 32 implies (bit_set(irq_mask(irq), j) <==> j == pos) by {
        assert(bit_set(1u32 << pos, j) <==> j == pos) by (bit_vector)
            requires j < 32, pos < 32;
    }
}

/// Two updates of the same interrupt's group bit: the second one decides,
/// so repeating an update changes nothing.
pub proof fn lemma_igroup_last_update_wins(val: u32, pos: u32, first: bool, second: bool)
    requires
        pos < 32,
    ensures
        with_bit(with_bit(val, pos, first), pos, second) == with_bit(val, pos, second),
        with_bit(with_bit(val, pos, second), pos, second) == with_bit(val, pos, second),
{
    assert(((val | (1u32 << pos)) | (1u32 << pos)) == (val | (1u32 << pos))) by (bit_vector);
    assert(((val & !(1u32 << pos)) | (1u32 << pos)) == (val | (1u32 << pos))) by (bit_vector);
    assert(((val | (1u32 << pos)) & !(1u32 << pos)) == (val & !(1u32 << pos))) by (bit_vector);
    assert(((val & !(1u32 << pos)) & !(1u32 << pos)) == (val & !(1u32 << pos))) by (bit_vector);
}

/// The read-modify-write of one interrupt's group bit keeps the bits of the
/// other interrupts of the register: updates of two different interrupts in
/// the same register give the same value in either order.
pub proof fn lemma_igroup_updates_commute(val: u32, p: u32, q: u32, a: bool, b: bool)
    requires
        p < 32,
        q < 32,
        p != q,
    ensures
        with_bit(with_bit(val, p, a), q, b) == with_bit(with_bit(val, q, b), p, a),
{
    assert(((val | (1u32 << p)) | (1u32 << q)) == ((val | (1u32 << q)) | (1u32 << p))) by (bit_vector);
    assert(((val | (1u32 << p)) & !(1u32 << q)) == ((val & !(1u32 << q)) | (1u32 << p))) by (bit_vector)
        requires p < 32, q < 32, p != q;
    assert(((val & !(1u32 << p)) | (1u32 << q)) == ((val | (1u32 << q)) & !(1u32 << p))) by (bit_vector)
        requires p < 32, q < 32, p != q;
    assert(((val & !(1u32 << p)) & !(1u32 << q)) == ((val & !(1u32 << q)) & !(1u32 << p))) by (bit_vector);
}

/// The per-interrupt registers of two different interrupts do not overlap:
/// their 8-byte GICD_IROUTER registers are disjoint, their GICD_IPRIORITYR
/// bytes differ, and they differ in bank register or in bit position.
pub proof fn lemma_distinct_irqs_distinct_fields(gicd_base: int, i: int, k: int)
    requires
        i >= 0,
        k >= 0,
        i != k,
    ensures
        gicd_base + GICD_IROUTER + i * 8 + 8 <= gicd_base + GICD_IROUTER + k * 8
            || gicd_base + GICD_IROUTER + k * 8 + 8 <= gicd_base + GICD_IROUTER + i * 8,
        gicd_base + GICD_IPRIORITYR + i != gicd_base + GICD_IPRIORITYR + k,
        bank_index(i) != bank_index(k) || bank_bit(i) != bank_bit(k),
{
    lemma_irq_mask_identifies_irq(i);
    lemma_irq_mask_identifies_irq(k);
}

} // verus!
