# crosvm_macos

The decision logic of a virtual machine monitor on Apple's Hypervisor.framework,
written in Verus and proved against its contracts.

- `src/` is the library. Its functions take plain values and return plain values:
  how a guest exit is decoded (`hvf`), how interrupts and power calls are handled
  (`irqchip`, `psci`), which packets go where (`virtio`, `vmnet`, `tube`), how the
  asynchronous reactor keeps track of operations (`cros_async`), how frames are
  laid out in shared memory (`display`), and in which order a machine is put
  together and run (`run`). Where a decision takes several system calls, the
  library is a state machine: it names the next call and is told the result.
- `app/` makes the system calls.
- `tests/` runs the library on concrete values.

Laws that relate several functions are public proof functions whose names begin
with `law_`.
