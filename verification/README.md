# xhci

A library to handle xHCI: the types of the xHCI structures (the registers, the contexts, the
TRBs and the extended capabilities), with every accessor proved correct by Verus.

## Layout

- `src/` is the verified library.
  - `bits.rs`: reading and writing bit fields of 32- and 64-bit words, with the laws that
    relate them (a field reads back what was written to it, and writing one field leaves the
    others unchanged).
  - `registers/`: the Capability, Operational, Runtime and Doorbell registers, the way a 64-bit
    register is split into two 32-bit accesses, and where each register set lies in the MMIO
    space.
  - `context/`: the Input, Device, Slot and Endpoint Contexts, in their 32- and 64-byte forms;
    `context::any_size` holds Input Control, Slot and Endpoint Contexts whose size is known only
    at run time, with the same contracts.
  - `ring/`: the Event Ring Segment Table entry and the Command, Transfer and Event TRBs. Each
    TRB type checks its TRB Type and RsvdZ fields when it is built from raw Dwords, and keeps
    them valid as a type invariant.
  - `extended_capabilities/`: the xHCI Extended Capabilities and the walk of their list.
  - `accessor.rs`: the alignment checks and address arithmetic behind memory-mapped access.
- `app/` maps the physical memory through a user-provided `Mapper` and reads and writes the
  registers volatilely. It takes the offset of each register, the address of each register
  set and the value of each field from the verified library; the offset tables in `src/` come
  with laws that each register is aligned and that no two overlap.
- `tests/` runs the library on concrete values.
