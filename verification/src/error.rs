//! The error taxonomy shared by the allocator, the page-table walkers and the
//! privileged physical-memory operations.

use vstd::prelude::*;

verus! {

/// Why a privileged operation or an internal helper failed.
///
/// Every fallible operation in this crate reports one of these; internal
/// helpers surface the same taxonomy upward without translation.
#[derive(Clone, Copy, Debug, PartialEq, Eq, Structural)]
pub enum Error {
    /// The frame allocator is exhausted, or a partial allocation could not
    /// reach the caller's minimum.
    OutOfMemory,
    /// A malformed argument, such as requesting both the 32-bit and the
    /// 64-bit address space, or an out-of-range I/O privilege level.
    InvalidArgument,
    /// The caller is not the root principal.
    PermissionDenied,
    /// The operation needs a current thread context and none exists.
    NoSuchProcess,
    /// An unmap or translate on an address with no covering mapping.
    BadAddress,
    /// A programming error such as re-mapping an already-mapped temporary
    /// page, or treating a huge-page entry as a table pointer: fatal to the
    /// call path and never recoverable, it halts the violating path through
    /// the kernel's invariant-violation stop. The verified operations here
    /// exclude the violating inputs by precondition, so none of them ever
    /// returns this member.
    ContractViolation,
}

} // verus!
