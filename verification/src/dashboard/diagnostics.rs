//! Process and host resource diagnostics, sampled by the shell.

use vstd::prelude::*;

verus! {

#[derive(Clone, Copy, Debug, PartialEq, Eq, Structural, PartialOrd, Ord)]
pub struct Diagnostics {
    pub process_uptime_s: i64,
    pub process_rss_bytes: i64,
    pub process_vm_hwm_bytes: i64,
    pub process_vm_size_bytes: i64,
    pub jemalloc_allocated_bytes: i64,
    pub jemalloc_resident_bytes: i64,
    pub host_mem_total_bytes: i64,
    pub host_mem_available_bytes: i64,
    pub host_swap_used_bytes: i64,
    pub sampled_at_epoch_ms: i64,
}

} // verus!
