//! HyperAMP doorbell: the root zone writes a packed (target zone, service)
//! word to the trigger field of an emulated control region, and the
//! hypervisor answers by making an interrupt pending in the distributor for
//! the target zone.
//!
//! Layout of the control region: `ipi_trigger` at offset 0x00,
//! `target_zone_id` at 0x04 and `service_id` at 0x08. A single write to
//! `ipi_trigger` carries everything: the high 16 bits are the target zone,
//! the low 16 bits the service.

use vstd::prelude::*;
use crate::gicd::{bank_bit, bank_index, bit_set, irq_mask, lemma_irq_mask_identifies_irq};
use crate::memory::MMIOAccess;

verus! {

pub const HYPERAMP_CTRL_IPI_TRIGGER_OFFSET: usize = 0x00;
pub const HYPERAMP_CTRL_TARGET_ZONE_OFFSET: usize = 0x04;
pub const HYPERAMP_CTRL_SERVICE_ID_OFFSET: usize = 0x08;

/// Interrupt used for zone 1 (software interrupt SWI1).
pub const HYPERAMP_ZONE1_IRQ: usize = 74;
/// Interrupt used for every zone without a mapping of its own.
pub const HYPERAMP_DEFAULT_IRQ: usize = 74;

/// The interrupt a doorbell for `target_zone_id` and `service_id` raises.
pub open spec fn irq_for_service(target_zone_id: u32, service_id: u32) -> usize {
    if target_zone_id == 1 {
        HYPERAMP_ZONE1_IRQ
    } else {
        HYPERAMP_DEFAULT_IRQ
    }
}

/// The target zone carried by a packed trigger word (its high 16 bits).
pub open spec fn packed_zone(packed: u32) -> u32 {
    (packed >> 16u32) & 0xFFFFu32
}

/// The service carried by a packed trigger word (its low 16 bits).
pub open spec fn packed_service(packed: u32) -> u32 {
    packed & 0xFFFFu32
}

/// The trigger word that carries `target_zone_id` and `service_id`.
pub open spec fn pack_trigger(target_zone_id: u32, service_id: u32) -> u32 {
    (target_zone_id << 16u32) | service_id
}

/// An interrupt to make pending: the arguments of the `set_ispender` call
/// that injects it, with what they were derived from.
pub struct IrqInjection {
    pub target_zone_id: u32,
    pub service_id: u32,
    pub irq: usize,
    /// The GICD_ISPENDR register to write.
    pub ispendr_index: usize,
    /// The value to write to it: only the bit of `irq` is set.
    pub ispendr_value: u32,
}

/// What an access to the control region asks of the hypervisor.
pub enum HyperampAction {
    /// A read: the guest reads 0, nothing else happens.
    Read,
    /// A write to a field other than `ipi_trigger`: ignored.
    IgnoredWrite,
    /// A write of 0 to `ipi_trigger`: it only warms up the mapping, no interrupt.
    Warmup,
    /// A doorbell: make the interrupt pending.
    Inject(IrqInjection),
}

/// The action that a guest access with the given fields calls for.
pub open spec fn hyperamp_action(is_write: bool, address: usize, value: usize) -> HyperampAction {
    if !is_write {
        HyperampAction::Read
    } else if address != HYPERAMP_CTRL_IPI_TRIGGER_OFFSET {
        HyperampAction::IgnoredWrite
    } else if (value as u32) == 0 {
        HyperampAction::Warmup
    } else {
        let packed = value as u32;
        let zone = packed_zone(packed);
        let service = packed_service(packed);
        let irq = irq_for_service(zone, service);
        HyperampAction::Inject(
            IrqInjection {
                target_zone_id: zone,
                service_id: service,
                irq,
                ispendr_index: bank_index(irq as int) as usize,
                ispendr_value: irq_mask(irq as int),
            },
        )
    }
}

/// Handle a trapped access to the HyperAMP control region at `base`.
///
/// A read returns 0 to the guest. A write changes nothing in `mmio`; a
/// nonzero write to `ipi_trigger` asks for an interrupt to be injected,
/// which the caller does with `set_ispender(ispendr_index, ispendr_value)`.
pub fn mmio_hyperamp_handler(mmio: &mut MMIOAccess, base: usize) -> (action: HyperampAction)
    ensures
        action == hyperamp_action(old(mmio).is_write, old(mmio).address, old(mmio).value),
        final(mmio).address == old(mmio).address,
        final(mmio).size == old(mmio).size,
        final(mmio).is_write == old(mmio).is_write,
        final(mmio).value == if old(mmio).is_write { old(mmio).value } else { 0 },
{
    let is_write = mmio.is_write;
    let offset = mmio.address;

    if !is_write {
        mmio.value = 0;
        return HyperampAction::Read;
    }
    if offset != HYPERAMP_CTRL_IPI_TRIGGER_OFFSET {
        return HyperampAction::IgnoredWrite;
    }
    let packed_value: u32 = mmio.value as u32;
    if packed_value == 0 {
        return HyperampAction::Warmup;
    }
    let target_zone_id: u32 = (packed_value >> 16u32) & 0xFFFF;
    let service_id: u32 = packed_value & 0xFFFF;
    let irq_num: usize = get_irq_by_service(target_zone_id, service_id);
    let ispendr_index: usize = irq_num / 32;
    let ispendr_value: u32 = 1u32 << ((irq_num % 32) as u32);
    HyperampAction::Inject(
        IrqInjection { target_zone_id, service_id, irq: irq_num, ispendr_index, ispendr_value },
    )
}

/// The interrupt number for a doorbell to `target_zone_id` (the service is
/// not used yet). Zone 1 has its own entry; other zones get the default.
pub fn get_irq_by_service(target_zone_id: u32, _service_id: u32) -> (irq: usize)
    ensures
        irq == irq_for_service(target_zone_id, _service_id),
        target_zone_id == 1 ==> irq == HYPERAMP_ZONE1_IRQ,
        target_zone_id != 1 ==> irq == HYPERAMP_DEFAULT_IRQ,
{
    match target_zone_id {
        1 => HYPERAMP_ZONE1_IRQ,
        _ => HYPERAMP_DEFAULT_IRQ,
    }
}

/// The packed trigger format round-trips: a word built from a zone and a
/// service of 16 bits each carries back exactly that zone and service, and
/// it is 0 only when both are 0.
pub proof fn lemma_pack_trigger_roundtrip(target_zone_id: u32, service_id: u32)
    requires
        target_zone_id < 0x10000,
        service_id < 0x10000,
    ensures
        packed_zone(pack_trigger(target_zone_id, service_id)) == target_zone_id,
        packed_service(pack_trigger(target_zone_id, service_id)) == service_id,
        (pack_trigger(target_zone_id, service_id) == 0) <==> (target_zone_id == 0 && service_id == 0),
{
    assert((((target_zone_id << 16u32) | service_id) >> 16u32) & 0xFFFFu32 == target_zone_id) by (bit_vector)
        requires target_zone_id < 0x10000, service_id < 0x10000;
    assert(((target_zone_id << 16u32) | service_id) & 0xFFFFu32 == service_id) by (bit_vector)
        requires target_zone_id < 0x10000, service_id < 0x10000;
    assert((((target_zone_id << 16u32) | service_id) == 0u32) <==> (target_zone_id == 0u32 && service_id == 0u32)) by (bit_vector)
        requires target_zone_id < 0x10000, service_id < 0x10000;
}

/// In numbers: the zone is the quotient and the service the remainder of
/// the trigger word divided by 0x10000, and packing is the inverse.
pub proof fn lemma_packed_fields_arith(packed: u32, target_zone_id: u32, service_id: u32)
    requires
        target_zone_id < 0x10000,
        service_id < 0x10000,
    ensures
        packed_zone(packed) == packed / 0x10000,
        packed_service(packed) == packed % 0x10000,
        pack_trigger(target_zone_id, service_id) == target_zone_id * 0x10000 + service_id,
{
    assert((packed >> 16u32) & 0xFFFFu32 == packed / 0x10000u32) by (bit_vector);
    assert(packed & 0xFFFFu32 == packed % 0x10000u32) by (bit_vector);
    assert((target_zone_id << 16u32) | service_id == target_zone_id * 0x10000u32 + service_id) by (bit_vector)
        requires target_zone_id < 0x10000, service_id < 0x10000;
}

/// A doorbell written to `ipi_trigger` for a zone and a service (not both 0)
/// makes interrupt 74 pending for that zone and service: it writes
/// GICD_ISPENDR register 2 with only bit 10 set, which is the bit of that
/// interrupt and of no other.
pub proof fn lemma_doorbell_injects(target_zone_id: u32, service_id: u32)
    requires
        target_zone_id < 0x10000,
        service_id < 0x10000,
        target_zone_id != 0 || service_id != 0,
    ensures
        ({
            let action = hyperamp_action(
                true,
                HYPERAMP_CTRL_IPI_TRIGGER_OFFSET,
                pack_trigger(target_zone_id, service_id) as usize,
            );
            &&& action is Inject
            &&& action->Inject_0.target_zone_id == target_zone_id
            &&& action->Inject_0.service_id == service_id
            &&& action->Inject_0.irq == irq_for_service(target_zone_id, service_id)
            &&& action->Inject_0.irq == 74
            &&& action->Inject_0.ispendr_index == 2
            &&& action->Inject_0.ispendr_value == 0x400
            &&& action->Inject_0.ispendr_index * 32 + bank_bit(action->Inject_0.irq as int)
                == action->Inject_0.irq
            &&& forall|j: u32|
                j < 32 ==> (bit_set(action->Inject_0.ispendr_value, j) <==> j == bank_bit(
                    action->Inject_0.irq as int,
                ))
        }),
{
    lemma_pack_trigger_roundtrip(target_zone_id, service_id);
    let packed = pack_trigger(target_zone_id, service_id);
    assert((packed as usize) as u32 == packed) by (bit_vector);
    lemma_irq_mask_identifies_irq(74);
    assert(1u32 << 10u32 == 0x400u32) by (bit_vector);
}

/// Every doorbell, whatever zone and service it names, raises the default
/// interrupt 74, and nothing but a nonzero write to `ipi_trigger` raises one.
pub proof fn lemma_only_doorbells_inject(is_write: bool, address: usize, value: usize)
    ensures
        hyperamp_action(is_write, address, value) is Inject <==> (is_write
            && address == HYPERAMP_CTRL_IPI_TRIGGER_OFFSET && value as u32 != 0),
        hyperamp_action(is_write, address, value) is Inject ==> hyperamp_action(
            is_write,
            address,
            value,
        )->Inject_0.irq == HYPERAMP_DEFAULT_IRQ,
{
}

} // verus!
