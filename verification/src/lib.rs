//! Verified core of a type-1 hypervisor for AArch64: virtual interrupt
//! injection, hardware capability checks, the block request path of an SD
//! card driver, vCPU task data and the board configuration steps of the
//! build tool.
pub mod gic;
pub mod hw_check;
pub mod blk;
pub mod task;
pub mod board_config;
pub mod text;
