//! The route configuration surface: create, list, get, update and delete,
//! each validating its payload, writing through the versioned repository, and
//! refreshing the served snapshot before reporting success.

use vstd::prelude::*;

use crate::errors::ApiError;
use crate::repository::{
    count_with_name, is_latest, latest_seq, lemma_id_index_at, remove_name, spec_has_id,
    spec_has_name, Record, Repository,
};
use crate::route_model::RouteDefinition;
use crate::route_validate::{
    is_default_gateway_route, route_config_wire_valid, route_payload_valid,
    spec_is_default_gateway_route, spec_route_cluster_summary, spec_route_path_prefix,
    summarize_route, validate_route_config, validate_route_payload,
};
use crate::xds_route::{route_config_rel, route_definition_encodable, RouteConfig};
use crate::xds_state::{
    refresh_routes_from_repository, snapshot_reflects, RouteStored, XdsRouteSnapshot,
};

verus! {

/// The view of a route configuration the API returns: the name, the two
/// stored summary columns, and the configuration itself.
pub struct RouteResponse {
    pub name: String,
    pub path_prefix: String,
    pub cluster_targets: String,
    pub config: RouteDefinition,
}

/// Pagination of the list endpoint.
pub struct ListRoutesQuery {
    pub limit: Option<i32>,
    pub offset: Option<i32>,
}

pub open spec fn spec_offset(q: ListRoutesQuery) -> int {
    match q.offset {
        Some(v) => if v >= 0 {
            v as int
        } else {
            0
        },
        None => 0,
    }
}

pub open spec fn spec_limit(q: ListRoutesQuery, total: int) -> int {
    match q.limit {
        Some(v) => if v >= 0 {
            v as int
        } else {
            0
        },
        None => total,
    }
}

/// How many rows a window of `total` rows at `o` with limit `l` holds.
pub open spec fn spec_window(total: int, o: int, l: int) -> int {
    if o >= total {
        0
    } else if l <= total - o {
        l
    } else {
        total - o
    }
}

/// A response restates a stored row: same name, same summaries, and a
/// configuration related to the stored canonical form.
pub open spec fn response_matches_row(resp: RouteResponse, rec: Record<RouteStored>) -> bool {
    &&& resp.name@ == rec.name@
    &&& resp.path_prefix@ == rec.data.path_prefix@
    &&& resp.cluster_targets@ == rec.data.cluster_name@
    &&& route_config_rel(resp.config, rec.data.config)
}

// === Valid payloads convert and pass the wire smoke test ===

/// A payload that passes validation has a canonical form: its weighted
/// actions all carry clusters.
pub proof fn lemma_valid_implies_encodable(d: RouteDefinition)
    requires
        route_payload_valid(d),
    ensures
        route_definition_encodable(d),
{
    assert forall|i: int|
        0 <= i < d.virtual_hosts@.len() implies crate::xds_route::virtual_host_encodable(
        #[trigger] d.virtual_hosts@[i],
    ) by {
        let vh = d.virtual_hosts@[i];
        assert(crate::route_validate::virtual_host_valid(vh));
        assert forall|j: int|
            0 <= j < vh.routes@.len() implies crate::xds_route::action_encodable(
            (#[trigger] vh.routes@[j]).action,
        ) by {
            assert(crate::route_validate::route_rule_valid(vh.routes@[j]));
        }
    }
}

/// The canonical form of a valid payload passes the wire-encoding smoke
/// test: each of its URI templates has the characters of a validated
/// template, whose encoding is non-empty.
pub proof fn lemma_valid_config_wire_valid(d: RouteDefinition, c: RouteConfig)
    requires
        route_payload_valid(d),
        route_config_rel(d, c),
    ensures
        route_config_wire_valid(c),
{
    assert forall|i: int|
        0 <= i < c.virtual_hosts@.len() implies crate::route_validate::virtual_host_wire_valid(
        #[trigger] c.virtual_hosts@[i],
    ) by {
        let dvh = d.virtual_hosts@[i];
        let cvh = c.virtual_hosts@[i];
        assert(crate::route_validate::virtual_host_valid(dvh));
        assert(crate::xds_route::virtual_host_rel(dvh, cvh));
        assert forall|j: int|
            0 <= j < cvh.routes@.len() implies crate::route_validate::route_rule_wire_valid(
            #[trigger] cvh.routes@[j],
        ) by {
            let drule = dvh.routes@[j];
            let crule = cvh.routes@[j];
            assert(crate::route_validate::route_rule_valid(drule));
            assert(crate::xds_route::route_rule_rel(drule, crule));
        }
    }
}

// === Handlers ===

/// Creates a route configuration: validates the payload, converts it to the
/// canonical form, runs the encoding smoke test, stores version 1 under the
/// offered row id, refreshes the snapshot, and answers 201 with the stored
/// view.  A 2xx answer is returned only after the snapshot reflects the new
/// repository state.
pub fn create_route(
    repo: &mut Repository<RouteStored>,
    snapshot: &mut XdsRouteSnapshot,
    id: String,
    payload: RouteDefinition,
) -> (r: Result<(u16, RouteResponse), ApiError>)
    requires
        old(repo).wf(),
    ensures
        final(repo).wf(),
        !route_payload_valid(payload) ==> (r matches Err(e) && e is Validation && final(repo).spec_rows() == old(repo).spec_rows() && *final(snapshot) == *old(snapshot)),
        route_payload_valid(payload) && spec_has_name(old(repo).spec_rows(), payload.name@) ==> (
        r matches Err(e) && e is Conflict && final(repo).spec_rows() == old(repo).spec_rows()
            && *final(snapshot) == *old(snapshot)),
        route_payload_valid(payload) && !spec_has_name(old(repo).spec_rows(), payload.name@)
            && spec_has_id(old(repo).spec_rows(), id@) ==> (r matches Err(e) && e is Internal
            && final(repo).spec_rows() == old(repo).spec_rows() && *final(snapshot) == *old(
            snapshot,
        )),
        route_payload_valid(payload) && !spec_has_name(old(repo).spec_rows(), payload.name@)
            && !spec_has_id(old(repo).spec_rows(), id@) ==> ({
            &&& r matches Ok(p)
            &&& p.0 == 201
            &&& final(repo).spec_rows().len() == old(repo).spec_rows().len() + 1
            &&& final(repo).spec_rows().take(old(repo).spec_rows().len() as int) == old(
                repo,
            ).spec_rows()
            &&& final(repo).spec_rows().last().id@ == id@
            &&& final(repo).spec_rows().last().name@ == payload.name@
            &&& final(repo).spec_rows().last().version == 1
            &&& final(repo).spec_rows().last().data.path_prefix@ == spec_route_path_prefix(
                payload,
            )
            &&& final(repo).spec_rows().last().data.cluster_name@ == spec_route_cluster_summary(
                payload,
            )
            &&& route_config_rel(payload, final(repo).spec_rows().last().data.config)
            &&& snapshot_reflects(*final(snapshot), final(repo).spec_rows())
            &&& p.1.name@ == payload.name@
            &&& p.1.path_prefix@ == spec_route_path_prefix(payload)
            &&& p.1.cluster_targets@ == spec_route_cluster_summary(payload)
            &&& p.1.config == payload
        }),
{
    match validate_route_payload(&payload) {
        Ok(_) => {},
        Err(e) => {
            return Err(e);
        },
    }
    let xds_config = match payload.to_xds_config() {
        Ok(c) => c,
        Err(e) => {
            proof {
                lemma_valid_implies_encodable(payload);
            }
            return Err(e);
        },
    };
    proof {
        lemma_valid_config_wire_valid(payload, xds_config);
    }
    let xds_config = match validate_route_config(xds_config) {
        Ok(c) => c,
        Err(e) => {
            return Err(e);
        },
    };
    let (path_prefix, cluster_summary) = summarize_route(&payload);
    let stored = RouteStored {
        path_prefix: path_prefix.clone(),
        cluster_name: cluster_summary.clone(),
        config: xds_config,
    };
    let name_for_repo = payload.name.clone();
    match repo.create(id, name_for_repo, stored) {
        Ok(_) => {},
        Err(e) => {
            return Err(e);
        },
    }
    refresh_routes_from_repository(snapshot, repo);
    let response_name = payload.name.clone();
    let response = RouteResponse {
        name: response_name,
        path_prefix,
        cluster_targets: cluster_summary,
        config: payload,
    };
    Ok((201, response))
}

/// Rebuilds the API view of a stored row.
pub fn route_response_from_data(rec: &Record<RouteStored>) -> (r: RouteResponse)
    ensures
        response_matches_row(r, *rec),
{
    let config = RouteDefinition::from_xds_config(&rec.data.config);
    RouteResponse {
        name: rec.name.clone(),
        path_prefix: rec.data.path_prefix.clone(),
        cluster_targets: rec.data.cluster_name.clone(),
        config,
    }
}

/// Lists the latest version of every stored route configuration, windowed by
/// the query's offset and limit.
pub fn list_routes(repo: &Repository<RouteStored>, params: &ListRoutesQuery) -> (r: Vec<
    RouteResponse,
>)
    ensures
        r@.len() == spec_window(
            latest_seq(repo.spec_rows()).len() as int,
            spec_offset(*params),
            spec_limit(*params, latest_seq(repo.spec_rows()).len() as int),
        ),
        forall|t: int|
            0 <= t < r@.len() ==> response_matches_row(
                #[trigger] r@[t],
                repo.spec_rows()[latest_seq(repo.spec_rows())[spec_offset(*params) + t]],
            ),
{
    let idx = repo.latest_indices();
    let total = idx.len();
    let o: usize = match params.offset {
        Some(v) => if v > 0 {
            v as usize
        } else {
            0
        },
        None => 0,
    };
    let l: usize = match params.limit {
        Some(v) => if v > 0 {
            v as usize
        } else {
            0
        },
        None => total,
    };
    let mut out: Vec<RouteResponse> = Vec::new();
    if o >= total {
        return out;
    }
    let count = if l <= total - o {
        l
    } else {
        total - o
    };
    let mut t: usize = 0;
    while t < count
        invariant
            t <= count,
            o + count <= total,
            total == idx@.len(),
            count == spec_window(
                latest_seq(repo.spec_rows()).len() as int,
                spec_offset(*params),
                spec_limit(*params, latest_seq(repo.spec_rows()).len() as int),
            ),
            o == spec_offset(*params),
            idx@.len() == latest_seq(repo.spec_rows()).len(),
            forall|k: int|
                0 <= k < idx@.len() ==> is_latest(repo.spec_rows(), #[trigger] idx@[k] as int),
            forall|k: int|
                0 <= k < idx@.len() ==> #[trigger] idx@[k] as int == latest_seq(
                    repo.spec_rows(),
                )[k],
            out@.len() == t,
            forall|u: int|
                0 <= u < t ==> response_matches_row(
                    #[trigger] out@[u],
                    repo.spec_rows()[latest_seq(repo.spec_rows())[o + u]],
                ),
        decreases count - t,
    {
        let row = repo.row_at(idx[o + t]);
        out.push(route_response_from_data(row));
        t = t + 1;
    }
    out
}

/// Returns the latest version of the named route configuration, or 404.
pub fn get_route(repo: &Repository<RouteStored>, name: &str) -> (r: Result<
    RouteResponse,
    ApiError,
>)
    ensures
        spec_has_name(repo.spec_rows(), name@) ==> (r matches Ok(resp) && exists|i: int|
            is_latest(repo.spec_rows(), i) && (#[trigger] repo.spec_rows()[i]).name@ == name@
                && response_matches_row(resp, repo.spec_rows()[i])),
        !spec_has_name(repo.spec_rows(), name@) ==> (r matches Err(e) && e is NotFound),
{
    match repo.get_by_name(name) {
        Some(rec) => Ok(route_response_from_data(rec)),
        None => Err(ApiError::NotFound(String::from_str("route configuration not found"))),
    }
}

/// Updates the named route configuration: the payload name must equal the
/// path name, the payload must validate, and the name must exist; the write
/// adds a new version row and the snapshot is refreshed before 200 is
/// returned.
pub fn update_route(
    repo: &mut Repository<RouteStored>,
    snapshot: &mut XdsRouteSnapshot,
    name: &str,
    new_id: String,
    payload: RouteDefinition,
) -> (r: Result<RouteResponse, ApiError>)
    requires
        old(repo).wf(),
        old(repo).spec_rows().len() < 0xffff_ffff_ffff_ffff,
    ensures
        final(repo).wf(),
        !route_payload_valid(payload) ==> (r matches Err(e) && e is Validation && final(repo).spec_rows() == old(repo).spec_rows() && *final(snapshot) == *old(snapshot)),
        route_payload_valid(payload) && payload.name@ != name@ ==> (r matches Err(e) && e
            is BadRequest && final(repo).spec_rows() == old(repo).spec_rows() && *final(snapshot)
            == *old(snapshot)),
        route_payload_valid(payload) && payload.name@ == name@ && !spec_has_name(
            old(repo).spec_rows(),
            name@,
        ) ==> (r matches Err(e) && e is NotFound && final(repo).spec_rows() == old(
            repo,
        ).spec_rows() && *final(snapshot) == *old(snapshot)),
        route_payload_valid(payload) && payload.name@ == name@ && spec_has_name(
            old(repo).spec_rows(),
            name@,
        ) && spec_has_id(old(repo).spec_rows(), new_id@) ==> (r matches Err(e) && e is Internal
            && final(repo).spec_rows() == old(repo).spec_rows() && *final(snapshot) == *old(
            snapshot,
        )),
        route_payload_valid(payload) && payload.name@ == name@ && spec_has_name(
            old(repo).spec_rows(),
            name@,
        ) && !spec_has_id(old(repo).spec_rows(), new_id@) ==> ({
            &&& r matches Ok(resp)
            &&& final(repo).spec_rows().len() == old(repo).spec_rows().len() + 1
            &&& final(repo).spec_rows().take(old(repo).spec_rows().len() as int) == old(
                repo,
            ).spec_rows()
            &&& final(repo).spec_rows().last().name@ == name@
            &&& final(repo).spec_rows().last().version == count_with_name(
                old(repo).spec_rows(),
                name@,
            ) + 1
            &&& final(repo).spec_rows().last().data.path_prefix@ == spec_route_path_prefix(
                payload,
            )
            &&& final(repo).spec_rows().last().data.cluster_name@ == spec_route_cluster_summary(
                payload,
            )
            &&& route_config_rel(payload, final(repo).spec_rows().last().data.config)
            &&& snapshot_reflects(*final(snapshot), final(repo).spec_rows())
            &&& resp.name@ == name@
            &&& resp.path_prefix@ == spec_route_path_prefix(payload)
            &&& resp.cluster_targets@ == spec_route_cluster_summary(payload)
            &&& resp.config == payload
        }),
{
    match validate_route_payload(&payload) {
        Ok(_) => {},
        Err(e) => {
            return Err(e);
        },
    }
    if !crate::text::str_eq(payload.name.as_str(), name) {
        return Err(
            ApiError::BadRequest(
                String::from_str("payload route name does not match the path name"),
            ),
        );
    }
    let existing_id: String = match repo.get_by_name(name) {
        Some(rec) => {
            let eid = rec.id.clone();
            proof {
                let s = repo.spec_rows();
                let i = choose|i: int|
                    is_latest(s, i) && (#[trigger] s[i]).name@ == name@ && *rec == s[i];
                assert(s[i].id@ == eid@);
                assert forall|j: int| 0 <= j < i implies (#[trigger] s[j]).id@ != eid@ by {
                    assert(s[j].id@ != s[i].id@);
                }
                lemma_id_index_at(s, eid@, i);
            }
            eid
        },
        None => {
            return Err(ApiError::NotFound(String::from_str("route configuration not found")));
        },
    };
    let xds_config = match payload.to_xds_config() {
        Ok(c) => c,
        Err(e) => {
            proof {
                lemma_valid_implies_encodable(payload);
            }
            return Err(e);
        },
    };
    proof {
        lemma_valid_config_wire_valid(payload, xds_config);
    }
    let xds_config = match validate_route_config(xds_config) {
        Ok(c) => c,
        Err(e) => {
            return Err(e);
        },
    };
    let (path_prefix, cluster_summary) = summarize_route(&payload);
    let stored = RouteStored {
        path_prefix: path_prefix.clone(),
        cluster_name: cluster_summary.clone(),
        config: xds_config,
    };
    match repo.update(existing_id.as_str(), new_id, stored) {
        Ok(_) => {},
        Err(e) => {
            return Err(e);
        },
    }
    refresh_routes_from_repository(snapshot, repo);
    let response_name = payload.name.clone();
    let response = RouteResponse {
        name: response_name,
        path_prefix,
        cluster_targets: cluster_summary,
        config: payload,
    };
    Ok(response)
}

/// Deletes every version of the named route configuration and refreshes the
/// snapshot; 204 on success.  The default gateway route configuration is
/// system-owned: deleting it always yields a conflict.
pub fn delete_route(
    repo: &mut Repository<RouteStored>,
    snapshot: &mut XdsRouteSnapshot,
    name: &str,
) -> (r: Result<u16, ApiError>)
    requires
        old(repo).wf(),
    ensures
        final(repo).wf(),
        spec_is_default_gateway_route(name@) ==> (r matches Err(e) && e is Conflict && final(repo).spec_rows() == old(repo).spec_rows() && *final(snapshot) == *old(snapshot)),
        !spec_is_default_gateway_route(name@) && !spec_has_name(old(repo).spec_rows(), name@)
            ==> (r matches Err(e) && e is NotFound && final(repo).spec_rows() == old(
            repo,
        ).spec_rows() && *final(snapshot) == *old(snapshot)),
        !spec_is_default_gateway_route(name@) && spec_has_name(old(repo).spec_rows(), name@)
            ==> ({
            &&& r matches Ok(code)
            &&& code == 204
            &&& final(repo).spec_rows() == remove_name(old(repo).spec_rows(), name@)
            &&& !spec_has_name(final(repo).spec_rows(), name@)
            &&& snapshot_reflects(*final(snapshot), final(repo).spec_rows())
        }),
{
    if is_default_gateway_route(name) {
        return Err(
            ApiError::Conflict(
                String::from_str("The default gateway route configuration cannot be deleted"),
            ),
        );
    }
    let existing_id: String = match repo.get_by_name(name) {
        Some(rec) => {
            let eid = rec.id.clone();
            proof {
                let s = repo.spec_rows();
                let i = choose|i: int|
                    is_latest(s, i) && (#[trigger] s[i]).name@ == name@ && *rec == s[i];
                assert(s[i].id@ == eid@);
                assert forall|j: int| 0 <= j < i implies (#[trigger] s[j]).id@ != eid@ by {
                    assert(s[j].id@ != s[i].id@);
                }
                lemma_id_index_at(s, eid@, i);
            }
            eid
        },
        None => {
            return Err(ApiError::NotFound(String::from_str("route configuration not found")));
        },
    };
    match repo.delete(existing_id.as_str()) {
        Ok(_) => {},
        Err(e) => {
            return Err(e);
        },
    }
    refresh_routes_from_repository(snapshot, repo);
    Ok(204)
}

} // verus!
