//! The cluster surface: create, list, get, update and delete, validating the
//! request, writing through the versioned repository, and refreshing the
//! served cluster snapshot before reporting success.

use vstd::prelude::*;

use crate::cluster_model::{
    cluster_body_rel, cluster_body_valid, cluster_spec_equiv, validate_cluster_body,
    cluster_spec_from_body, ClusterResponse, CreateClusterBody,
};
use crate::errors::ApiError;
use crate::repository::{
    count_with_name, is_latest, latest_seq, lemma_id_index_at, remove_name, spec_has_id,
    spec_has_name, Record, Repository,
};
use crate::route_handlers::{spec_limit, spec_offset, spec_window, ListRoutesQuery};
use crate::xds_state::{
    cluster_snapshot_reflects, refresh_clusters_from_repository, ClusterStored, XdsClusterSnapshot,
};

verus! {

/// A response restates a stored row: same name, the stored service name, and
/// an equivalent configuration.
pub open spec fn cluster_response_matches_row(
    resp: ClusterResponse,
    rec: Record<ClusterStored>,
) -> bool {
    &&& resp.name@ == rec.name@
    &&& resp.service_name@ == rec.data.service_name@
    &&& cluster_spec_equiv(resp.config, rec.data.config)
}

/// Creates a cluster: validates the request, stores version 1 of its
/// canonical form under the offered row id, refreshes the snapshot, and
/// answers 201.
pub fn create_cluster(
    repo: &mut Repository<ClusterStored>,
    snapshot: &mut XdsClusterSnapshot,
    id: String,
    body: CreateClusterBody,
) -> (r: Result<(u16, ClusterResponse), ApiError>)
    requires
        old(repo).wf(),
    ensures
        final(repo).wf(),
        !cluster_body_valid(body) ==> (r matches Err(e) && e is Validation && final(repo).spec_rows() == old(repo).spec_rows() && *final(snapshot) == *old(snapshot)),
        cluster_body_valid(body) && spec_has_name(old(repo).spec_rows(), body.name@) ==> (
        r matches Err(e) && e is Conflict && final(repo).spec_rows() == old(repo).spec_rows()
            && *final(snapshot) == *old(snapshot)),
        cluster_body_valid(body) && !spec_has_name(old(repo).spec_rows(), body.name@)
            && spec_has_id(old(repo).spec_rows(), id@) ==> (r matches Err(e) && e is Internal
            && final(repo).spec_rows() == old(repo).spec_rows() && *final(snapshot) == *old(
            snapshot,
        )),
        cluster_body_valid(body) && !spec_has_name(old(repo).spec_rows(), body.name@)
            && !spec_has_id(old(repo).spec_rows(), id@) ==> ({
            &&& r matches Ok(p)
            &&& p.0 == 201
            &&& final(repo).spec_rows().len() == old(repo).spec_rows().len() + 1
            &&& final(repo).spec_rows().take(old(repo).spec_rows().len() as int) == old(
                repo,
            ).spec_rows()
            &&& final(repo).spec_rows().last().name@ == body.name@
            &&& final(repo).spec_rows().last().version == 1
            &&& final(repo).spec_rows().last().data.service_name@ == (match body.service_name {
                Some(s) => s@,
                None => body.name@,
            })
            &&& cluster_body_rel(body, final(repo).spec_rows().last().data.config)
            &&& cluster_snapshot_reflects(*final(snapshot), final(repo).spec_rows())
            &&& p.1.name@ == body.name@
            &&& p.1.service_name@ == (match body.service_name {
                Some(s) => s@,
                None => body.name@,
            })
            &&& cluster_body_rel(body, p.1.config)
        }),
{
    match validate_cluster_body(&body) {
        Ok(_) => {},
        Err(e) => {
            return Err(e);
        },
    }
    let config = cluster_spec_from_body(&body);
    let service_name: String = match &body.service_name {
        Some(s) => s.clone(),
        None => body.name.clone(),
    };
    let stored = ClusterStored { service_name: service_name.clone(), config };
    let response_config = cluster_spec_from_body(&body);
    match repo.create(id, body.name.clone(), stored) {
        Ok(_) => {},
        Err(e) => {
            return Err(e);
        },
    }
    refresh_clusters_from_repository(snapshot, repo);
    let response = ClusterResponse { name: body.name, service_name, config: response_config };
    Ok((201, response))
}

/// Rebuilds the API view of a stored row.
pub fn cluster_response_from_data(rec: &Record<ClusterStored>) -> (r: ClusterResponse)
    ensures
        cluster_response_matches_row(r, *rec),
{
    ClusterResponse {
        name: rec.name.clone(),
        service_name: rec.data.service_name.clone(),
        config: rec.data.config.duplicate(),
    }
}

/// Lists the latest version of every stored cluster, windowed by the query's
/// offset and limit.
pub fn list_clusters(repo: &Repository<ClusterStored>, params: &ListRoutesQuery) -> (r: Vec<
    ClusterResponse,
>)
    ensures
        r@.len() == spec_window(
            latest_seq(repo.spec_rows()).len() as int,
            spec_offset(*params),
            spec_limit(*params, latest_seq(repo.spec_rows()).len() as int),
        ),
        forall|t: int|
            0 <= t < r@.len() ==> cluster_response_matches_row(
                #[trigger] r@[t],
                repo.spec_rows()[latest_seq(repo.spec_rows())[spec_offset(*params) + t]],
            ),
{
    let idx = repo.latest_indices();
    let total = idx.len();
    let o: usize = match params.offset {
        Some(v) => if v > 0 {
            v as usize
        } else {
            0
        },
        None => 0,
    };
    let l: usize = match params.limit {
        Some(v) => if v > 0 {
            v as usize
        } else {
            0
        },
        None => total,
    };
    let mut out: Vec<ClusterResponse> = Vec::new();
    if o >= total {
        return out;
    }
    let count = if l <= total - o {
        l
    } else {
        total - o
    };
    let mut t: usize = 0;
    while t < count
        invariant
            t <= count,
            o + count <= total,
            total == idx@.len(),
            count == spec_window(
                latest_seq(repo.spec_rows()).len() as int,
                spec_offset(*params),
                spec_limit(*params, latest_seq(repo.spec_rows()).len() as int),
            ),
            o == spec_offset(*params),
            idx@.len() == latest_seq(repo.spec_rows()).len(),
            forall|k: int|
                0 <= k < idx@.len() ==> is_latest(repo.spec_rows(), #[trigger] idx@[k] as int),
            forall|k: int|
                0 <= k < idx@.len() ==> #[trigger] idx@[k] as int == latest_seq(
                    repo.spec_rows(),
                )[k],
            out@.len() == t,
            forall|u: int|
                0 <= u < t ==> cluster_response_matches_row(
                    #[trigger] out@[u],
                    repo.spec_rows()[latest_seq(repo.spec_rows())[o + u]],
                ),
        decreases count - t,
    {
        let row = repo.row_at(idx[o + t]);
        out.push(cluster_response_from_data(row));
        t = t + 1;
    }
    out
}

/// Returns the latest version of the named cluster, or 404.
pub fn get_cluster(repo: &Repository<ClusterStored>, name: &str) -> (r: Result<
    ClusterResponse,
    ApiError,
>)
    ensures
        spec_has_name(repo.spec_rows(), name@) ==> (r matches Ok(resp) && exists|i: int|
            is_latest(repo.spec_rows(), i) && (#[trigger] repo.spec_rows()[i]).name@ == name@
                && cluster_response_matches_row(resp, repo.spec_rows()[i])),
        !spec_has_name(repo.spec_rows(), name@) ==> (r matches Err(e) && e is NotFound),
{
    match repo.get_by_name(name) {
        Some(rec) => Ok(cluster_response_from_data(rec)),
        None => Err(ApiError::NotFound(String::from_str("cluster not found"))),
    }
}

/// Updates the named cluster: the request name must equal the path name, the
/// request must validate, and the name must exist; the write adds a new
/// version row and the snapshot is refreshed before 200 is returned.
pub fn update_cluster(
    repo: &mut Repository<ClusterStored>,
    snapshot: &mut XdsClusterSnapshot,
    name: &str,
    new_id: String,
    body: CreateClusterBody,
) -> (r: Result<ClusterResponse, ApiError>)
    requires
        old(repo).wf(),
        old(repo).spec_rows().len() < 0xffff_ffff_ffff_ffff,
    ensures
        final(repo).wf(),
        !cluster_body_valid(body) ==> (r matches Err(e) && e is Validation && final(repo).spec_rows() == old(repo).spec_rows() && *final(snapshot) == *old(snapshot)),
        cluster_body_valid(body) && body.name@ != name@ ==> (r matches Err(e) && e is BadRequest
            && final(repo).spec_rows() == old(repo).spec_rows() && *final(snapshot) == *old(
            snapshot,
        )),
        cluster_body_valid(body) && body.name@ == name@ && !spec_has_name(
            old(repo).spec_rows(),
            name@,
        ) ==> (r matches Err(e) && e is NotFound && final(repo).spec_rows() == old(
            repo,
        ).spec_rows() && *final(snapshot) == *old(snapshot)),
        cluster_body_valid(body) && body.name@ == name@ && spec_has_name(
            old(repo).spec_rows(),
            name@,
        ) && spec_has_id(old(repo).spec_rows(), new_id@) ==> (r matches Err(e) && e is Internal
            && final(repo).spec_rows() == old(repo).spec_rows() && *final(snapshot) == *old(
            snapshot,
        )),
        cluster_body_valid(body) && body.name@ == name@ && spec_has_name(
            old(repo).spec_rows(),
            name@,
        ) && !spec_has_id(old(repo).spec_rows(), new_id@) ==> ({
            &&& r matches Ok(resp)
            &&& final(repo).spec_rows().len() == old(repo).spec_rows().len() + 1
            &&& final(repo).spec_rows().take(old(repo).spec_rows().len() as int) == old(
                repo,
            ).spec_rows()
            &&& final(repo).spec_rows().last().name@ == name@
            &&& final(repo).spec_rows().last().version == count_with_name(
                old(repo).spec_rows(),
                name@,
            ) + 1
            &&& cluster_body_rel(body, final(repo).spec_rows().last().data.config)
            &&& cluster_snapshot_reflects(*final(snapshot), final(repo).spec_rows())
            &&& resp.name@ == name@
            &&& cluster_body_rel(body, resp.config)
        }),
{
    match validate_cluster_body(&body) {
        Ok(_) => {},
        Err(e) => {
            return Err(e);
        },
    }
    if !crate::text::str_eq(body.name.as_str(), name) {
        return Err(
            ApiError::BadRequest(String::from_str("payload name does not match the path name")),
        );
    }
    let existing_id: String = match repo.get_by_name(name) {
        Some(rec) => {
            let eid = rec.id.clone();
            proof {
                let s = repo.spec_rows();
                let i = choose|i: int|
                    is_latest(s, i) && (#[trigger] s[i]).name@ == name@ && *rec == s[i];
                assert(s[i].id@ == eid@);
                assert forall|j: int| 0 <= j < i implies (#[trigger] s[j]).id@ != eid@ by {
                    assert(s[j].id@ != s[i].id@);
                }
                lemma_id_index_at(s, eid@, i);
            }
            eid
        },
        None => {
            return Err(ApiError::NotFound(String::from_str("cluster not found")));
        },
    };
    let config = cluster_spec_from_body(&body);
    let service_name: String = match &body.service_name {
        Some(s) => s.clone(),
        None => body.name.clone(),
    };
    let stored = ClusterStored { service_name: service_name.clone(), config };
    let response_config = cluster_spec_from_body(&body);
    match repo.update(existing_id.as_str(), new_id, stored) {
        Ok(_) => {},
        Err(e) => {
            return Err(e);
        },
    }
    refresh_clusters_from_repository(snapshot, repo);
    let response = ClusterResponse { name: body.name, service_name, config: response_config };
    Ok(response)
}

/// Deletes every version of the named cluster and refreshes the snapshot;
/// 204 on success.
pub fn delete_cluster(
    repo: &mut Repository<ClusterStored>,
    snapshot: &mut XdsClusterSnapshot,
    name: &str,
) -> (r: Result<u16, ApiError>)
    requires
        old(repo).wf(),
    ensures
        final(repo).wf(),
        !spec_has_name(old(repo).spec_rows(), name@) ==> (r matches Err(e) && e is NotFound
            && final(repo).spec_rows() == old(repo).spec_rows() && *final(snapshot) == *old(
            snapshot,
        )),
        spec_has_name(old(repo).spec_rows(), name@) ==> ({
            &&& r matches Ok(code)
            &&& code == 204
            &&& final(repo).spec_rows() == remove_name(old(repo).spec_rows(), name@)
            &&& !spec_has_name(final(repo).spec_rows(), name@)
            &&& cluster_snapshot_reflects(*final(snapshot), final(repo).spec_rows())
        }),
{
    let existing_id: String = match repo.get_by_name(name) {
        Some(rec) => {
            let eid = rec.id.clone();
            proof {
                let s = repo.spec_rows();
                let i = choose|i: int|
                    is_latest(s, i) && (#[trigger] s[i]).name@ == name@ && *rec == s[i];
                assert(s[i].id@ == eid@);
                assert forall|j: int| 0 <= j < i implies (#[trigger] s[j]).id@ != eid@ by {
                    assert(s[j].id@ != s[i].id@);
                }
                lemma_id_index_at(s, eid@, i);
            }
            eid
        },
        None => {
            return Err(ApiError::NotFound(String::from_str("cluster not found")));
        },
    };
    match repo.delete(existing_id.as_str()) {
        Ok(_) => {},
        Err(e) => {
            return Err(e);
        },
    }
    refresh_clusters_from_repository(snapshot, repo);
    Ok(204)
}

} // verus!
