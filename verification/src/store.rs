//! The concurrency-safe metrics store.
//!
//! Exactly one provider lives in the store, behind a verified exclusive
//! lock. `refresh_and_snapshot` is the single operation: it serializes
//! concurrent callers, refreshes the provider, reads one consistent set of
//! facts inside the critical section, and builds the snapshot outside it.
//! At most one refresh runs at a time, and no caller ever sees a reading
//! interleaved with another caller's refresh.

use vstd::prelude::*;

verus! {

use vstd::rwlock::RwLock;

use crate::metrics::HostMetrics;
use crate::metrics::unix_timestamp_secs;
use crate::si::SelectionInput;
use crate::si::build_selection_input;
use crate::si::disk_views;
use crate::si::is_built_snapshot;
use crate::si::net_views;
use crate::si::snapshot_wf;
use crate::si::spec_build;

/// A concurrency-safe container holding exactly one `HostMetrics` provider.
pub struct MetricsStore {
    lock: RwLock<HostMetrics, spec_fn(HostMetrics) -> bool>,
}

impl MetricsStore {
    /// The store's lock admits every provider value, so a refreshed
    /// provider can always be handed back.
    pub closed spec fn wf(&self) -> bool {
        forall|v: HostMetrics| self.lock.inv(v)
    }

    /// Wrap one provider; the store owns it for the process lifetime.
    pub fn new(provider: HostMetrics) -> (r: Self)
        ensures
            r.wf(),
    {
        let lock = RwLock::<HostMetrics, spec_fn(HostMetrics) -> bool>::new(
            provider,
            Ghost(|v: HostMetrics| true),
        );
        let r = MetricsStore { lock };
        proof {
            assert forall|v: HostMetrics| r.lock.inv(v) by {}
        }
        r
    }

    /// Acquire the provider exclusively, refresh it, read one consistent
    /// set of facts, release it, and build the snapshot, stamped with the
    /// wall-clock instant of the build.
    pub fn refresh_and_snapshot(&self) -> (r: SelectionInput)
        requires
            self.wf(),
        ensures
            snapshot_wf(r@),
            is_built_snapshot(r@),
    {
        let (mut provider, handle) = self.lock.acquire_write();
        provider.refresh();
        let facts = provider.system_facts();
        let nets = provider.network_entries();
        let disks = provider.disk_entries();
        handle.release_write(provider);
        let ghost nets_v = net_views(nets@);
        let ghost disks_v = disk_views(disks@);
        let timestamp = unix_timestamp_secs();
        let r = build_selection_input(facts, nets, disks, timestamp);
        proof {
            assert(r@ == spec_build(facts@, nets_v, disks_v, r@.timestamp));
        }
        r
    }
}

/// Refresh the shared provider and return the fresh snapshot.
pub fn collect_data(store: &MetricsStore) -> (r: SelectionInput)
    requires
        store.wf(),
    ensures
        snapshot_wf(r@),
        is_built_snapshot(r@),
{
    store.refresh_and_snapshot()
}

} // verus!
