//! Verified core of a microkernel's virtual-memory and execution-context
//! subsystem: a bump frame allocator over firmware-reported memory areas,
//! typed physical/virtual addresses and pages, hardware page-table entries
//! with a live-entry counter packed into reserved bits, the four-level page
//! table hierarchy, execution contexts with FPU state handling and an atomic
//! switch lock, grants of physical memory to address spaces, and the
//! privileged physical-memory operations built on top of them.

pub mod aml;
pub mod context;
pub mod driver;
pub mod entry;
pub mod error;
pub mod idt;
pub mod interrupt;
pub mod log;
pub mod mapper;
pub mod memory;
pub mod paging;
pub mod start;
pub mod table;
pub mod temporary_page;
pub mod uart;
