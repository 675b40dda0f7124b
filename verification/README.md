# hvisor (verified distributor and HyperAMP core)

- `src/gicd.rs`: GICv3 distributor register map; each driver operation
  (`enable_gic_are_ns`, `set_ispender`, `set_irouter`, `set_igroup`,
  `set_isenabler`, `set_ipriority`) returns the register store it calls for,
  with its address and value proved; laws on the read-modify-write of the
  group bits and on the per-interrupt register layout.
- `src/hyperamp.rs`: the HyperAMP doorbell handler and the zone-to-interrupt
  mapping, with laws on the packed trigger format and on when an interrupt
  is injected.
- `src/memory.rs`: the trapped MMIO access.
- `app/`: the volatile register accesses and the lock, around the library.
