use hvisor::gicd::{
    enable_gic_are_ns, igroupr_addr, set_igroup, set_ipriority, set_irouter, set_isenabler,
    set_ispender,
};

const BASE: usize = 0x3080_0000;

#[test]
fn ctlr_enables_are_ns_and_group1() {
    let w = enable_gic_are_ns(BASE);
    assert_eq!(w.addr, BASE);
    assert_eq!(w.value, 0x22);
}

#[test]
fn ispender_register_address() {
    let w = set_ispender(BASE, 2, 0x400);
    assert_eq!(w.addr, 0x3080_0208);
    assert_eq!(w.value, 0x400);
    let w0 = set_ispender(BASE, 0, 1);
    assert_eq!(w0.addr, 0x3080_0200);
}

#[test]
fn irouter_is_eight_bytes_per_irq() {
    let w = set_irouter(BASE, 74, 0x8000_0000);
    assert_eq!(w.addr, BASE + 0x6000 + 74 * 8);
    assert_eq!(w.addr, 0x3080_6250);
    assert_eq!(w.value, 0x8000_0000);
    let next = set_irouter(BASE, 75, 0);
    assert_eq!(next.addr - w.addr, 8);
}

#[test]
fn igroup_register_address() {
    assert_eq!(igroupr_addr(BASE, 74), 0x3080_0088);
    assert_eq!(igroupr_addr(BASE, 31), 0x3080_0080);
    assert_eq!(igroupr_addr(BASE, 32), 0x3080_0084);
}

#[test]
fn igroup_sets_only_the_irq_bit() {
    let w = set_igroup(BASE, 74, 1, 0);
    assert_eq!(w.addr, 0x3080_0088);
    assert_eq!(w.value, 0x400);
    let w = set_igroup(BASE, 31, 7, 0x1);
    assert_eq!(w.value, 0x8000_0001);
    let w = set_igroup(BASE, 74, 1, 0x0000_0400);
    assert_eq!(w.value, 0x0000_0400);
}

#[test]
fn igroup_clears_only_the_irq_bit() {
    let w = set_igroup(BASE, 74, 0, 0xffff_ffff);
    assert_eq!(w.value, 0xffff_fbff);
    let w = set_igroup(BASE, 0, 0, 0x0000_0003);
    assert_eq!(w.value, 0x0000_0002);
    let w = set_igroup(BASE, 5, 0, 0);
    assert_eq!(w.value, 0);
}

#[test]
fn igroup_updates_of_two_irqs_commute() {
    let a = set_igroup(BASE, 66, 1, 0x1234_5678).value;
    let ab = set_igroup(BASE, 70, 0, a).value;
    let b = set_igroup(BASE, 70, 0, 0x1234_5678).value;
    let ba = set_igroup(BASE, 66, 1, b).value;
    assert_eq!(ab, ba);
    assert_eq!(ab, (0x1234_5678 | (1 << 2)) & !(1 << 6));
}

#[test]
fn igroup_last_update_wins() {
    let once = set_igroup(BASE, 40, 1, 0xf0f0_0000).value;
    let twice = set_igroup(BASE, 40, 1, once).value;
    assert_eq!(once, twice);
    let undone = set_igroup(BASE, 40, 0, once).value;
    assert_eq!(undone, set_igroup(BASE, 40, 0, 0xf0f0_0000).value);
}

#[test]
fn isenabler_writes_one_bit() {
    let w = set_isenabler(BASE, 33);
    assert_eq!(w.addr, 0x3080_0104);
    assert_eq!(w.value, 0x2);
    let w = set_isenabler(BASE, 74);
    assert_eq!(w.addr, 0x3080_0108);
    assert_eq!(w.value, 0x400);
    assert_eq!(w.value.count_ones(), 1);
}

#[test]
fn ipriority_is_one_byte_per_irq() {
    let w = set_ipriority(BASE, 74, 0xa0);
    assert_eq!(w.addr, 0x3080_044a);
    assert_eq!(w.value, 0xa0);
}
