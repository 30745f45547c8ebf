//! The types that the C allocator's interface names: its opaque heap
//! handles and its table of runtime options.

use vstd::prelude::*;

verus! {

/// The C allocator's heap. Opaque: only ever handled behind a pointer.
#[allow(non_camel_case_types)]
pub struct mi_heap_t {
    _opaque: [u8; 0],
}

/// The C allocator's thread-local heap. Opaque: only ever handled behind a pointer.
#[allow(non_camel_case_types)]
pub struct mi_theap_t {
    _opaque: [u8; 0],
}

/// A mimalloc runtime option.
///
/// Every option can be set in three places. Later ones take precedence:
///
/// 1. At build time, through a `MI_DEFAULT_*` variable in the build environment,
///    for the options that list one below.
/// 2. In the environment of the running process, as `MIMALLOC_<NAME>`, where
///    `<NAME>` is the variant name without the `mi_option_` prefix, in upper
///    case. mimalloc reads these once, when the process starts.
/// 3. From code, with `mi_option_set` (or `MiMalloc::option_set`).
///
/// Setting an option from code only matters if mimalloc reads it again
/// afterwards. Each variant says when it is read:
///
/// - **on use**: every time mimalloc needs it, so it can be changed at any
///   time.
/// - **per thread**: when a thread first allocates, so it applies to threads
///   that start afterwards.
/// - **at startup**: once, before `main`. Setting it from code has no effect;
///   use the environment variable or the build-time default instead.
/// - **at exit**: when the process ends.
///
/// Options measured in KiB accept a `K`, `M`, `G` or `T` suffix in the
/// environment (`MIMALLOC_ARENA_RESERVE=4GiB`); through `mi_option_set` and
/// `MI_DEFAULT_*` they are plain KiB. `mi_option_get_size` returns them in bytes.
/// Boolean options accept `1`/`0`, `true`/`false`, `on`/`off` and `yes`/`no`.
///
/// The C interface identifies each option by the number that [`mi_option_t::value`]
/// gives.
#[allow(non_camel_case_types)]
#[derive(Debug, Clone, Copy, PartialEq, Eq, Structural)]
pub enum mi_option_t {
    /// Print error messages to stderr. Default 0, or 1 when built
    /// with `MI_DEBUG`. Read on use.
    mi_option_show_errors,
    /// Print statistics to stderr when the process exits. Default 0. Read at
    /// exit.
    mi_option_show_stats,
    /// Print verbose messages, including the option values at startup and
    /// statistics at exit. Default 0. Build-time default:
    /// `MI_DEFAULT_VERBOSE`. Read on use.
    mi_option_verbose,
    /// Commit a whole arena when it is created instead of on demand: 0 = no,
    /// 1 = yes, 2 = only on systems that overcommit, which includes Linux.
    /// Committing does not raise the resident set. Default 2. Build-time
    /// default: `MI_DEFAULT_ARENA_EAGER_COMMIT`. Read on use, when an arena is
    /// created.
    mi_option_arena_eager_commit,
    /// How to give unused memory back to the OS: 1 = decommit
    /// (`MADV_DONTNEED`, lowers the resident set immediately), 0 = reset
    /// (`MADV_FREE`, the kernel reclaims it when it needs to). Default 1. Read
    /// on use.
    mi_option_purge_decommits,
    /// Use explicit large OS pages (2 MiB, `MAP_HUGETLB`) when available. The
    /// kernel only has these if `vm.nr_hugepages` is set, and they cannot be
    /// purged. Default 0. Build-time default:
    /// `MI_DEFAULT_ALLOW_LARGE_OS_PAGES`. Read on use.
    mi_option_allow_large_os_pages,
    /// Number of 1 GiB huge pages to reserve at startup, spread over the NUMA
    /// nodes. Default 0. Build-time default:
    /// `MI_DEFAULT_RESERVE_HUGE_OS_PAGES`. Read at startup; from code, call
    /// `mi_reserve_huge_os_pages_interleave` instead.
    mi_option_reserve_huge_os_pages,
    /// Reserve all huge pages from `mi_option_reserve_huge_os_pages` on this
    /// NUMA node instead of spreading them. Default -1 (spread). Read at
    /// startup; from code, call `mi_reserve_huge_os_pages_at` instead.
    mi_option_reserve_huge_os_pages_at,
    /// Memory to reserve as an arena at startup, in KiB. Default 0. Build-time
    /// default: `MI_DEFAULT_RESERVE_OS_MEMORY`. Read at startup; from code,
    /// call `mi_reserve_os_memory_ex` instead.
    mi_option_reserve_os_memory,
    /// Delay in milliseconds before unused memory is purged (see
    /// `mi_option_purge_decommits`). 0 purges immediately, -1 never purges.
    /// Default 1000. Read on use.
    mi_option_purge_delay,
    /// Use at most this many NUMA nodes; 0 detects them. Setting 1 can help in
    /// virtual machines that report NUMA incorrectly. Default 0. Read at
    /// startup, and has no build-time default: set `MIMALLOC_USE_NUMA_NODES`.
    mi_option_use_numa_nodes,
    /// Never allocate memory from the OS, only from arenas that were reserved
    /// up front. Default 0. Read on use.
    mi_option_disallow_os_alloc,
    /// macOS memory tag. No effect on Linux.
    mi_option_os_tag,
    /// Maximum number of error messages to print. Default 32. Read at startup.
    mi_option_max_errors,
    /// Maximum number of warning messages to print. Default 32. Read at
    /// startup.
    mi_option_max_warnings,
    /// Release all OS memory when the process exits, even if other code may
    /// still use it afterwards. Default 0. Read at exit.
    mi_option_destroy_on_exit,
    /// Size of each arena mimalloc reserves from the OS, in KiB. Default
    /// 1 GiB. Build-time default: `MI_DEFAULT_ARENA_RESERVE`. Read on use, when
    /// an arena is created.
    mi_option_arena_reserve,
    /// Multiplier on `mi_option_purge_delay` for purging arena memory. Default
    /// 4. Read on use.
    mi_option_arena_purge_mult,
    /// Never allocate from arenas, except arenas requested explicitly by id.
    /// Default 0. Build-time default: `MI_DEFAULT_DISALLOW_ARENA_ALLOC`. Read
    /// on use.
    mi_option_disallow_arena_alloc,
    /// Windows only. No effect on Linux.
    mi_option_retry_on_oom,
    /// Guarded allocation: minimum object size. Only has an effect when
    /// mimalloc is built with `MI_GUARDED`.
    mi_option_guarded_min,
    /// Guarded allocation: maximum object size. Only has an effect when
    /// mimalloc is built with `MI_GUARDED`.
    mi_option_guarded_max,
    /// Guarded allocation: place blocks exactly against the guard page. Only
    /// has an effect when mimalloc is built with `MI_GUARDED`.
    mi_option_guarded_precise,
    /// Guarded allocation: guard 1 in N allocations. Only has an effect when
    /// mimalloc is built with `MI_GUARDED`.
    mi_option_guarded_sample_rate,
    /// Guarded allocation: random seed for sampling. Only has an effect when
    /// mimalloc is built with `MI_GUARDED`.
    mi_option_guarded_sample_seed,
    /// Collect a thread's heap every N allocations that take the slow path.
    /// Default 10000. Read on use.
    mi_option_generic_collect,
    /// Reclaim abandoned pages when a block in them is freed: -1 = never,
    /// 0 = only into the thread that owned them, 1 = into any thread. Default
    /// 0. Read per thread and on use.
    mi_option_page_reclaim_on_free,
    /// Number of empty pages each thread keeps in its free queues; -1 disables
    /// abandoning pages. Default 2. Read per thread.
    mi_option_page_full_retain,
    /// Maximum number of pages to search for the best fit. Default 4. Read on
    /// use.
    mi_option_page_max_candidates,
    /// Maximum usable virtual address bits; 0 detects them. Default 0. Read at
    /// startup.
    mi_option_max_vabits,
    /// Commit the whole page map at startup instead of on demand. Default 0.
    /// Build-time default: `MI_DEFAULT_PAGEMAP_COMMIT`. Read at startup.
    mi_option_pagemap_commit,
    /// Commit pages on demand: 0 = no, 1 = yes, 2 = only on systems that do not
    /// overcommit. Default 0. Read on use.
    mi_option_page_commit_on_demand,
    /// Do not reclaim a page into its original thread if that thread already
    /// owns this many pages of the same size class; -1 = no limit. Default -1.
    /// Build-time default: `MI_DEFAULT_PAGE_MAX_RECLAIM`. Read on use.
    mi_option_page_max_reclaim,
    /// Do not reclaim a page across threads if the thread already owns this
    /// many pages of the same size class. Default 32. Build-time default:
    /// `MI_DEFAULT_PAGE_CROSS_THREAD_MAX_RECLAIM`. Read on use.
    mi_option_page_cross_thread_max_reclaim,
    /// Transparent huge pages: 0 = disable THP for the whole process,
    /// 1 = allow, 2 = allow and raise `mi_option_minimal_purge_size` to 2 MiB
    /// so purging does not split huge pages. Default 2. Build-time default:
    /// `MI_DEFAULT_ALLOW_THP`. Disabling THP for the process happens at
    /// startup; whether mimalloc asks for huge pages on new memory is read on
    /// use.
    mi_option_allow_thp,
    /// Smallest amount of memory to purge at once, in KiB; 0 picks 64 KiB, or
    /// 2 MiB when THP is available and `mi_option_allow_thp` is 2. Default 0.
    /// Read on use.
    mi_option_minimal_purge_size,
    /// Largest object allocated from an arena, in KiB; larger ones come
    /// straight from the OS. Default 2 GiB. Build-time default:
    /// `MI_DEFAULT_ARENA_MAX_OBJECT_SIZE`. Read on use.
    mi_option_arena_max_object_size,
    /// Tie a new arena to the NUMA node of the thread that created it.
    /// Default 0. Read on use.
    mi_option_arena_is_numa_local,
    /// Merge a thread heap's statistics into its parent heap on every collect.
    /// Default 1. Build-time default: `MI_DEFAULT_COLLECT_MERGES_STATS`. Read
    /// on use.
    mi_option_collect_merges_stats,
}

/// The number by which the C interface (`mi_option_e` in `mimalloc.h`) knows
/// each option.
pub open spec fn option_value(option: mi_option_t) -> i32 {
    match option {
        mi_option_t::mi_option_show_errors => 0,
        mi_option_t::mi_option_show_stats => 1,
        mi_option_t::mi_option_verbose => 2,
        mi_option_t::mi_option_arena_eager_commit => 4,
        mi_option_t::mi_option_purge_decommits => 5,
        mi_option_t::mi_option_allow_large_os_pages => 6,
        mi_option_t::mi_option_reserve_huge_os_pages => 7,
        mi_option_t::mi_option_reserve_huge_os_pages_at => 8,
        mi_option_t::mi_option_reserve_os_memory => 9,
        mi_option_t::mi_option_purge_delay => 15,
        mi_option_t::mi_option_use_numa_nodes => 16,
        mi_option_t::mi_option_disallow_os_alloc => 17,
        mi_option_t::mi_option_os_tag => 18,
        mi_option_t::mi_option_max_errors => 19,
        mi_option_t::mi_option_max_warnings => 20,
        mi_option_t::mi_option_destroy_on_exit => 22,
        mi_option_t::mi_option_arena_reserve => 23,
        mi_option_t::mi_option_arena_purge_mult => 24,
        mi_option_t::mi_option_disallow_arena_alloc => 26,
        mi_option_t::mi_option_retry_on_oom => 27,
        mi_option_t::mi_option_guarded_min => 29,
        mi_option_t::mi_option_guarded_max => 30,
        mi_option_t::mi_option_guarded_precise => 31,
        mi_option_t::mi_option_guarded_sample_rate => 32,
        mi_option_t::mi_option_guarded_sample_seed => 33,
        mi_option_t::mi_option_generic_collect => 34,
        mi_option_t::mi_option_page_reclaim_on_free => 35,
        mi_option_t::mi_option_page_full_retain => 36,
        mi_option_t::mi_option_page_max_candidates => 37,
        mi_option_t::mi_option_max_vabits => 38,
        mi_option_t::mi_option_pagemap_commit => 39,
        mi_option_t::mi_option_page_commit_on_demand => 40,
        mi_option_t::mi_option_page_max_reclaim => 41,
        mi_option_t::mi_option_page_cross_thread_max_reclaim => 42,
        mi_option_t::mi_option_allow_thp => 43,
        mi_option_t::mi_option_minimal_purge_size => 44,
        mi_option_t::mi_option_arena_max_object_size => 45,
        mi_option_t::mi_option_arena_is_numa_local => 46,
        mi_option_t::mi_option_collect_merges_stats => 47,
    }
}

impl mi_option_t {
    /// The number by which the C interface knows this option.
    pub fn value(self) -> (v: i32)
        ensures
            v == option_value(self),
    {
        match self {
            mi_option_t::mi_option_show_errors => 0,
            mi_option_t::mi_option_show_stats => 1,
            mi_option_t::mi_option_verbose => 2,
            mi_option_t::mi_option_arena_eager_commit => 4,
            mi_option_t::mi_option_purge_decommits => 5,
            mi_option_t::mi_option_allow_large_os_pages => 6,
            mi_option_t::mi_option_reserve_huge_os_pages => 7,
            mi_option_t::mi_option_reserve_huge_os_pages_at => 8,
            mi_option_t::mi_option_reserve_os_memory => 9,
            mi_option_t::mi_option_purge_delay => 15,
            mi_option_t::mi_option_use_numa_nodes => 16,
            mi_option_t::mi_option_disallow_os_alloc => 17,
            mi_option_t::mi_option_os_tag => 18,
            mi_option_t::mi_option_max_errors => 19,
            mi_option_t::mi_option_max_warnings => 20,
            mi_option_t::mi_option_destroy_on_exit => 22,
            mi_option_t::mi_option_arena_reserve => 23,
            mi_option_t::mi_option_arena_purge_mult => 24,
            mi_option_t::mi_option_disallow_arena_alloc => 26,
            mi_option_t::mi_option_retry_on_oom => 27,
            mi_option_t::mi_option_guarded_min => 29,
            mi_option_t::mi_option_guarded_max => 30,
            mi_option_t::mi_option_guarded_precise => 31,
            mi_option_t::mi_option_guarded_sample_rate => 32,
            mi_option_t::mi_option_guarded_sample_seed => 33,
            mi_option_t::mi_option_generic_collect => 34,
            mi_option_t::mi_option_page_reclaim_on_free => 35,
            mi_option_t::mi_option_page_full_retain => 36,
            mi_option_t::mi_option_page_max_candidates => 37,
            mi_option_t::mi_option_max_vabits => 38,
            mi_option_t::mi_option_pagemap_commit => 39,
            mi_option_t::mi_option_page_commit_on_demand => 40,
            mi_option_t::mi_option_page_max_reclaim => 41,
            mi_option_t::mi_option_page_cross_thread_max_reclaim => 42,
            mi_option_t::mi_option_allow_thp => 43,
            mi_option_t::mi_option_minimal_purge_size => 44,
            mi_option_t::mi_option_arena_max_object_size => 45,
            mi_option_t::mi_option_arena_is_numa_local => 46,
            mi_option_t::mi_option_collect_merges_stats => 47,
        }
    }
}

/// No two options share a number, so the C side always gets the option that
/// was meant.
pub proof fn lemma_option_values_distinct(a: mi_option_t, b: mi_option_t)
    ensures
        option_value(a) == option_value(b) ==> a == b,
{
}

/// The numbers of `mi_option_e` in `mimalloc.h`, option by option.
pub proof fn lemma_option_values_match_mimalloc_h()
    ensures
        option_value(mi_option_t::mi_option_show_errors) == 0,
        option_value(mi_option_t::mi_option_show_stats) == 1,
        option_value(mi_option_t::mi_option_verbose) == 2,
        option_value(mi_option_t::mi_option_arena_eager_commit) == 4,
        option_value(mi_option_t::mi_option_purge_decommits) == 5,
        option_value(mi_option_t::mi_option_allow_large_os_pages) == 6,
        option_value(mi_option_t::mi_option_reserve_huge_os_pages) == 7,
        option_value(mi_option_t::mi_option_reserve_huge_os_pages_at) == 8,
        option_value(mi_option_t::mi_option_reserve_os_memory) == 9,
        option_value(mi_option_t::mi_option_purge_delay) == 15,
        option_value(mi_option_t::mi_option_use_numa_nodes) == 16,
        option_value(mi_option_t::mi_option_disallow_os_alloc) == 17,
        option_value(mi_option_t::mi_option_os_tag) == 18,
        option_value(mi_option_t::mi_option_max_errors) == 19,
        option_value(mi_option_t::mi_option_max_warnings) == 20,
        option_value(mi_option_t::mi_option_destroy_on_exit) == 22,
        option_value(mi_option_t::mi_option_arena_reserve) == 23,
        option_value(mi_option_t::mi_option_arena_purge_mult) == 24,
        option_value(mi_option_t::mi_option_disallow_arena_alloc) == 26,
        option_value(mi_option_t::mi_option_retry_on_oom) == 27,
        option_value(mi_option_t::mi_option_guarded_min) == 29,
        option_value(mi_option_t::mi_option_guarded_max) == 30,
        option_value(mi_option_t::mi_option_guarded_precise) == 31,
        option_value(mi_option_t::mi_option_guarded_sample_rate) == 32,
        option_value(mi_option_t::mi_option_guarded_sample_seed) == 33,
        option_value(mi_option_t::mi_option_generic_collect) == 34,
        option_value(mi_option_t::mi_option_page_reclaim_on_free) == 35,
        option_value(mi_option_t::mi_option_page_full_retain) == 36,
        option_value(mi_option_t::mi_option_page_max_candidates) == 37,
        option_value(mi_option_t::mi_option_max_vabits) == 38,
        option_value(mi_option_t::mi_option_pagemap_commit) == 39,
        option_value(mi_option_t::mi_option_page_commit_on_demand) == 40,
        option_value(mi_option_t::mi_option_page_max_reclaim) == 41,
        option_value(mi_option_t::mi_option_page_cross_thread_max_reclaim) == 42,
        option_value(mi_option_t::mi_option_allow_thp) == 43,
        option_value(mi_option_t::mi_option_minimal_purge_size) == 44,
        option_value(mi_option_t::mi_option_arena_max_object_size) == 45,
        option_value(mi_option_t::mi_option_arena_is_numa_local) == 46,
        option_value(mi_option_t::mi_option_collect_merges_stats) == 47,
{
}

} // verus!
