//! Verified core of hvisor's GICv3 distributor driver and of the HyperAMP
//! MMIO doorbell: which register is written with which value, and what a
//! guest access to the doorbell region asks for.

pub mod gicd;
pub mod hyperamp;
pub mod memory;
