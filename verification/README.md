# axvisor

The verified core of the Axvisor hypervisor for AArch64, written in Verus.

- `src/gic.rs`: choosing the GICv3 list register for a virtual interrupt,
  encoding the list register value, enabling the virtual CPU interface, and
  routing an injection to the GICv2 or GICv3 path.
- `src/hw_check.rs`: the stage-2 page table depth that the physical address
  range calls for, checked against the build configuration.
- `src/blk.rs`: the request path of the Phytium SD card driver (block
  offset, buffer validation, host error mapping, copying read data).
- `src/task.rs`: per-task vCPU data holding its VM without keeping it alive.
- `src/board_config.rs`: the `defconfig` step of the build tool.
- `src/text.rs`: decimal text for error messages.

`app/` holds the unverified parts: system register and MMIO access, driver
registration and the build tool's command line and file operations.
