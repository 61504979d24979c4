//! Storage housekeeping: archive thresholds, storage keys and usage counts.
use vstd::prelude::*;

verus! {

pub struct StorageOptimizer {
    pub compact_mode: bool,
    pub archive_threshold: u64,
}

impl StorageOptimizer {
    /// An optimiser archiving after ninety days.
    pub fn new(compact_mode: bool) -> (r: Self)
        ensures
            r.compact_mode == compact_mode,
            r.archive_threshold == 86400 * 90,
    {
        StorageOptimizer { compact_mode, archive_threshold: 86400 * 90 }
    }

    /// Whether an entry created at `created_at` is older than the threshold at `current_time`.
    pub fn should_archive(&self, created_at: u64, current_time: u64) -> (r: bool)
        requires
            created_at <= current_time,
        ensures
            r == (current_time - created_at > self.archive_threshold),
    {
        (current_time - created_at) > self.archive_threshold
    }

    /// The storage key of `id` under `prefix`: "prefix:id" in compact mode,
    /// "prefix:id:full" otherwise.
    pub fn calculate_storage_key(&self, prefix: &str, id: &str) -> (r: String)
        ensures
            self.compact_mode ==> r@ == prefix@ + ":"@ + id@,
            !self.compact_mode ==> r@ == prefix@ + ":"@ + id@ + ":full"@,
    {
        let mut key = String::from_str(prefix);
        key.append(":");
        key.append(id);
        if !self.compact_mode {
            key.append(":full");
        }
        key
    }
}

/// The stored usage count.
pub struct StorageStats {
    pub storage_usage: Option<u64>,
}

impl StorageStats {
    /// The usage count, 0 while unset.
    pub open spec fn usage(&self) -> u64 {
        match self.storage_usage {
            Some(u) => u,
            None => 0,
        }
    }
}

/// Archive matches created before `created_before`; no match is archived, so
/// the count is 0.
pub fn archive_old_matches(created_before: u64) -> (r: Result<u32, ()>)
    ensures
        r == Ok::<u32, ()>(0),
{
    let archived_count: u32 = 0;
    Ok(archived_count)
}

/// Compact storage; nothing needs to change.
pub fn compact_storage() -> (r: Result<(), ()>)
    ensures
        r is Ok,
{
    Ok(())
}

/// The recorded storage usage.
pub fn get_storage_usage(stats: &StorageStats) -> (r: Result<u64, ()>)
    ensures
        r == Ok::<u64, ()>(stats.usage()),
{
    let usage: u64 = match stats.storage_usage {
        Some(u) => u,
        None => 0,
    };
    Ok(usage)
}

/// Add `new_entry_size` to the recorded usage, saturating at `u64::MAX`.
pub fn update_storage_stats(stats: &mut StorageStats, new_entry_size: u64) -> (r: Result<(), ()>)
    ensures
        r is Ok,
        final(stats).storage_usage == Some(
            if old(stats).usage() + new_entry_size > u64::MAX {
                u64::MAX
            } else {
                (old(stats).usage() + new_entry_size) as u64
            },
        ),
{
    let current: u64 = match stats.storage_usage {
        Some(u) => u,
        None => 0,
    };
    let updated = current.saturating_add(new_entry_size);
    stats.storage_usage = Some(updated);
    Ok(())
}

/// Prune data older than `expiry_seconds`; nothing is pruned, so the count is 0.
pub fn prune_expired_data(expiry_seconds: u64) -> (r: Result<u32, ()>)
    ensures
        r == Ok::<u32, ()>(0),
{
    let pruned_count: u32 = 0;
    Ok(pruned_count)
}

} // verus!
