//! The allocator handle and the process information record.

use vstd::prelude::*;

verus! {

/// Process memory information, as mimalloc reports it.
#[derive(Debug, Clone, Copy)]
pub struct ProcessInfo {
    pub elapsed_msecs: usize,
    pub user_msecs: usize,
    pub system_msecs: usize,
    pub current_rss: usize,
    pub peak_rss: usize,
    pub current_commit: usize,
    pub peak_commit: usize,
    pub page_faults: usize,
}

impl ProcessInfo {
    /// Every counter is zero.
    pub open spec fn is_zero(self) -> bool {
        &&& self.elapsed_msecs == 0
        &&& self.user_msecs == 0
        &&& self.system_msecs == 0
        &&& self.current_rss == 0
        &&& self.peak_rss == 0
        &&& self.current_commit == 0
        &&& self.peak_commit == 0
        &&& self.page_faults == 0
    }
}

impl Default for ProcessInfo {
    /// A record with every counter at zero, to be filled in by mimalloc.
    fn default() -> (info: Self)
        ensures
            info.is_zero(),
    {
        ProcessInfo {
            elapsed_msecs: 0,
            user_msecs: 0,
            system_msecs: 0,
            current_rss: 0,
            peak_rss: 0,
            current_commit: 0,
            peak_commit: 0,
            page_faults: 0,
        }
    }
}

/// The mimalloc global allocator.
///
/// A drop-in replacement for the system allocator. It always allocates with
/// `mi_malloc_aligned`, so every layout gets the alignment it asks for.
#[derive(Debug, Clone, Copy)]
pub struct MiMalloc;

impl Default for MiMalloc {
    fn default() -> (m: Self)
        ensures
            m == MiMalloc,
    {
        MiMalloc
    }
}

} // verus!
