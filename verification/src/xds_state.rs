//! The downstream snapshot: the in-memory view of canonical resources served
//! to the data plane, and the refresh that rebuilds it in full from the
//! repository after every write.

use vstd::prelude::*;

use crate::cluster_model::{cluster_spec_equiv, ClusterSpec};
use crate::repository::{is_latest, Record, Repository};
use crate::xds_route::{route_config_equiv, RouteConfig};

verus! {

/// What the route repository stores per row: the two summary columns and the
/// canonical configuration.
pub struct RouteStored {
    pub path_prefix: String,
    pub cluster_name: String,
    pub config: RouteConfig,
}

/// One served route configuration with the name and version it was stored
/// under.
pub struct RouteSnapshotEntry {
    pub name: String,
    pub version: u64,
    pub config: RouteConfig,
}

/// The snapshot of route configurations the xDS server serves.
pub struct XdsRouteSnapshot {
    pub entries: Vec<RouteSnapshotEntry>,
}

pub open spec fn entry_matches_row(
    e: RouteSnapshotEntry,
    s: Seq<Record<RouteStored>>,
    i: int,
) -> bool {
    &&& 0 <= i < s.len()
    &&& e.name@ == s[i].name@
    &&& e.version == s[i].version
    &&& route_config_equiv(e.config, s[i].data.config)
}

/// The snapshot holds exactly the latest version of every stored name: every
/// entry restates a latest row, and every latest row has an entry.
pub open spec fn snapshot_reflects(snap: XdsRouteSnapshot, s: Seq<Record<RouteStored>>) -> bool {
    &&& forall|k: int|
        0 <= k < snap.entries@.len() ==> exists|i: int|
            is_latest(s, i) && entry_matches_row(#[trigger] snap.entries@[k], s, i)
    &&& forall|i: int|
        #[trigger] is_latest(s, i) ==> exists|k: int|
            0 <= k < snap.entries@.len() && entry_matches_row(#[trigger] snap.entries@[k], s, i)
}

impl XdsRouteSnapshot {
    /// An empty snapshot, reflecting an empty repository.
    pub fn new() -> (r: Self)
        ensures
            r.entries@.len() == 0,
    {
        XdsRouteSnapshot { entries: Vec::new() }
    }
}

/// Rebuilds the served snapshot in full from the repository: afterwards the
/// snapshot holds the latest version of every stored route configuration.
pub fn refresh_routes_from_repository(
    snapshot: &mut XdsRouteSnapshot,
    repo: &Repository<RouteStored>,
)
    ensures
        snapshot_reflects(*final(snapshot), repo.spec_rows()),
{
    let idx = repo.latest_indices();
    let n = idx.len();
    let mut entries: Vec<RouteSnapshotEntry> = Vec::new();
    let mut k: usize = 0;
    while k < n
        invariant
            k <= n,
            n == idx@.len(),
            entries@.len() == k,
            forall|t: int|
                0 <= t < idx@.len() ==> is_latest(repo.spec_rows(), #[trigger] idx@[t] as int),
            forall|i: int|
                #[trigger] is_latest(repo.spec_rows(), i) ==> exists|t: int|
                    0 <= t < idx@.len() && #[trigger] idx@[t] as int == i,
            forall|t: int|
                0 <= t < k ==> entry_matches_row(
                    #[trigger] entries@[t],
                    repo.spec_rows(),
                    idx@[t] as int,
                ),
        decreases n - k,
    {
        let row = repo.row_at(idx[k]);
        entries.push(
            RouteSnapshotEntry {
                name: row.name.clone(),
                version: row.version,
                config: row.data.config.duplicate(),
            },
        );
        k = k + 1;
    }
    snapshot.entries = entries;
    proof {
        assert forall|i: int| #[trigger] is_latest(repo.spec_rows(), i) implies exists|t: int|
            0 <= t < snapshot.entries@.len() && entry_matches_row(
                #[trigger] snapshot.entries@[t],
                repo.spec_rows(),
                i,
            ) by {
            let t = choose|t: int| 0 <= t < idx@.len() && #[trigger] idx@[t] as int == i;
            assert(entry_matches_row(snapshot.entries@[t], repo.spec_rows(), i));
        }
    }
}


/// What the cluster repository stores per row: the logical service name and
/// the canonical configuration.
pub struct ClusterStored {
    pub service_name: String,
    pub config: ClusterSpec,
}

/// One served cluster with the name and version it was stored under.
pub struct ClusterSnapshotEntry {
    pub name: String,
    pub version: u64,
    pub config: ClusterSpec,
}

/// The snapshot of clusters the xDS server serves.
pub struct XdsClusterSnapshot {
    pub entries: Vec<ClusterSnapshotEntry>,
}

pub open spec fn cluster_entry_matches_row(
    e: ClusterSnapshotEntry,
    s: Seq<Record<ClusterStored>>,
    i: int,
) -> bool {
    &&& 0 <= i < s.len()
    &&& e.name@ == s[i].name@
    &&& e.version == s[i].version
    &&& cluster_spec_equiv(e.config, s[i].data.config)
}

/// The cluster snapshot holds exactly the latest version of every stored
/// name.
pub open spec fn cluster_snapshot_reflects(
    snap: XdsClusterSnapshot,
    s: Seq<Record<ClusterStored>>,
) -> bool {
    &&& forall|k: int|
        0 <= k < snap.entries@.len() ==> exists|i: int|
            is_latest(s, i) && cluster_entry_matches_row(#[trigger] snap.entries@[k], s, i)
    &&& forall|i: int|
        #[trigger] is_latest(s, i) ==> exists|k: int|
            0 <= k < snap.entries@.len() && cluster_entry_matches_row(
                #[trigger] snap.entries@[k],
                s,
                i,
            )
}

impl XdsClusterSnapshot {
    /// An empty snapshot, reflecting an empty repository.
    pub fn new() -> (r: Self)
        ensures
            r.entries@.len() == 0,
    {
        XdsClusterSnapshot { entries: Vec::new() }
    }
}

/// Rebuilds the served cluster snapshot in full from the repository.
pub fn refresh_clusters_from_repository(
    snapshot: &mut XdsClusterSnapshot,
    repo: &Repository<ClusterStored>,
)
    ensures
        cluster_snapshot_reflects(*final(snapshot), repo.spec_rows()),
{
    let idx = repo.latest_indices();
    let n = idx.len();
    let mut entries: Vec<ClusterSnapshotEntry> = Vec::new();
    let mut k: usize = 0;
    while k < n
        invariant
            k <= n,
            n == idx@.len(),
            entries@.len() == k,
            forall|t: int|
                0 <= t < idx@.len() ==> is_latest(repo.spec_rows(), #[trigger] idx@[t] as int),
            forall|i: int|
                #[trigger] is_latest(repo.spec_rows(), i) ==> exists|t: int|
                    0 <= t < idx@.len() && #[trigger] idx@[t] as int == i,
            forall|t: int|
                0 <= t < k ==> cluster_entry_matches_row(
                    #[trigger] entries@[t],
                    repo.spec_rows(),
                    idx@[t] as int,
                ),
        decreases n - k,
    {
        let row = repo.row_at(idx[k]);
        entries.push(
            ClusterSnapshotEntry {
                name: row.name.clone(),
                version: row.version,
                config: row.data.config.duplicate(),
            },
        );
        k = k + 1;
    }
    snapshot.entries = entries;
    proof {
        assert forall|i: int| #[trigger] is_latest(repo.spec_rows(), i) implies exists|t: int|
            0 <= t < snapshot.entries@.len() && cluster_entry_matches_row(
                #[trigger] snapshot.entries@[t],
                repo.spec_rows(),
                i,
            ) by {
            let t = choose|t: int| 0 <= t < idx@.len() && #[trigger] idx@[t] as int == i;
            assert(cluster_entry_matches_row(snapshot.entries@[t], repo.spec_rows(), i));
        }
    }
}

} // verus!
