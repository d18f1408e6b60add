//! The argument blocks the boot loader hands to the kernel entry points:
//! the image and stack placement, the boot environment, and the firmware
//! table pointers for the boot processor; the page-table root and stack
//! for an application processor.

use vstd::prelude::*;

verus! {

/// What the boot loader passes to the boot processor's entry point.
#[derive(Clone, Copy, Debug, Default)]
pub struct KernelArgs {
    pub kernel_base: u64,
    pub kernel_size: u64,
    pub stack_base: u64,
    pub stack_size: u64,
    pub env_base: u64,
    pub env_size: u64,
    /// Base of the saved firmware root-pointer region, or zero when the
    /// firmware did not provide one and the kernel must search memory.
    pub acpi_rsdps_base: u64,
    /// Size of the saved firmware root-pointer region.
    pub acpi_rsdps_size: u64,
}

/// What the boot processor passes to an application processor's entry
/// point.
#[derive(Clone, Copy, Debug, Default)]
pub struct KernelArgsAp {
    pub cpu_id: u64,
    pub page_table: u64,
    pub stack_start: u64,
    pub stack_end: u64,
}

} // verus!
