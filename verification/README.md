# Bedrock

A deterministic x86-64 virtual machine core, written and verified with Verus.

The library holds everything a hypervisor decides: exit dispatch, emulated time
and randomness, hypercalls, precise exits, copy-on-write forks, the event stream,
and the commands of the device and VM file descriptors. It works on plain values:
the VMCS is an image that the embedder fills and flushes, MSRs are a bank that
lists the writes to perform, host pages come from a pool. What the machine alone
can do stays with the embedder.

- `src/` is the verified library. Contracts are stated over views such as
  `VmStateView`, `MemView` and `EventStreamView`; laws that span functions stand
  as public proof functions beside them or in the `laws` modules. Reproducible
  execution is stated in `exits/replay.rs`: two VMs that differ only in what they
  have of their hosts go through every exit alike, and siblings start so
  (`vm/laws.rs`).
- `tests/` runs the library on concrete values.
- `app/` is ordinary Rust: the guest's workload monitor and a run loop over a
  processor interface.
