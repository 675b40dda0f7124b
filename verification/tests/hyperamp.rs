use hvisor::hyperamp::{get_irq_by_service, mmio_hyperamp_handler, HyperampAction};
use hvisor::memory::MMIOAccess;

const CTRL_BASE: usize = 0xde41_0000;

fn access(address: usize, is_write: bool, value: usize) -> MMIOAccess {
    MMIOAccess { address, size: 4, is_write, value }
}

#[test]
fn read_returns_zero() {
    let mut mmio = access(0x04, false, 0xdead_beef);
    let action = mmio_hyperamp_handler(&mut mmio, CTRL_BASE);
    assert!(matches!(action, HyperampAction::Read));
    assert_eq!(mmio.value, 0);
    assert_eq!(mmio.address, 0x04);
    assert_eq!(mmio.size, 4);
    assert!(!mmio.is_write);
}

#[test]
fn write_to_other_field_is_ignored() {
    let mut mmio = access(0x08, true, 0x0001_0001);
    let action = mmio_hyperamp_handler(&mut mmio, CTRL_BASE);
    assert!(matches!(action, HyperampAction::IgnoredWrite));
    assert_eq!(mmio.value, 0x0001_0001);
}

#[test]
fn zero_write_is_warmup() {
    let mut mmio = access(0x00, true, 0);
    let action = mmio_hyperamp_handler(&mut mmio, CTRL_BASE);
    assert!(matches!(action, HyperampAction::Warmup));
    assert_eq!(mmio.value, 0);
}

#[test]
fn only_low_32_bits_are_read() {
    let mut mmio = access(0x00, true, 0x1_0000_0000);
    let action = mmio_hyperamp_handler(&mut mmio, CTRL_BASE);
    assert!(matches!(action, HyperampAction::Warmup));
    assert_eq!(mmio.value, 0x1_0000_0000);
}

#[test]
fn doorbell_to_zone_one_injects_irq_74() {
    let mut mmio = access(0x00, true, 0x0001_0002);
    match mmio_hyperamp_handler(&mut mmio, CTRL_BASE) {
        HyperampAction::Inject(inj) => {
            assert_eq!(inj.target_zone_id, 1);
            assert_eq!(inj.service_id, 2);
            assert_eq!(inj.irq, 74);
            assert_eq!(inj.ispendr_index, 2);
            assert_eq!(inj.ispendr_value, 0x400);
        }
        _ => panic!("expected an injection"),
    }
    assert_eq!(mmio.value, 0x0001_0002);
}

#[test]
fn doorbell_to_unmapped_zone_uses_default_irq() {
    let mut mmio = access(0x00, true, 0xabcd_0000);
    match mmio_hyperamp_handler(&mut mmio, CTRL_BASE) {
        HyperampAction::Inject(inj) => {
            assert_eq!(inj.target_zone_id, 0xabcd);
            assert_eq!(inj.service_id, 0);
            assert_eq!(inj.irq, 74);
            assert_eq!(inj.ispendr_index * 32 + inj.ispendr_value.trailing_zeros() as usize, 74);
        }
        _ => panic!("expected an injection"),
    }
}

#[test]
fn packed_fields_round_trip() {
    let zone: u32 = 0x0123;
    let service: u32 = 0xfedc;
    let packed = (zone << 16) | service;
    let mut mmio = access(0x00, true, packed as usize);
    match mmio_hyperamp_handler(&mut mmio, CTRL_BASE) {
        HyperampAction::Inject(inj) => {
            assert_eq!(inj.target_zone_id, zone);
            assert_eq!(inj.service_id, service);
        }
        _ => panic!("expected an injection"),
    }
}

#[test]
fn irq_by_service_mapping() {
    assert_eq!(get_irq_by_service(1, 0), 74);
    assert_eq!(get_irq_by_service(1, 9), 74);
    assert_eq!(get_irq_by_service(0, 0), 74);
    assert_eq!(get_irq_by_service(7, 3), 74);
}
