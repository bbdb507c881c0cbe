//! The Platform API definition surface: create lowers a definition to its
//! derived cluster and route configuration and writes both through the
//! Native surfaces, rolling the cluster back when the route write fails;
//! reads project the stored derived route configurations; delete cascades
//! over the derived resources best-effort.

use vstd::prelude::*;

use crate::cluster_handlers::{create_cluster, delete_cluster};
use crate::cluster_model::CreateClusterBody;
use crate::errors::ApiError;
use crate::json::JsonVal;
use crate::platform_api_definitions::{
    api_cluster_rel, api_definition_valid, api_lowering_acceptable, api_route_config_rel,
    api_to_cluster, api_to_route_config, lemma_lowered_cluster_valid, lemma_lowered_route_valid,
    validate_api_definition, ApiDefinition, ApiDefinitionResponse, ListApisQuery,
};
use crate::platform_transformers::{
    api_summary_rel, is_platform_api_routes, is_uuid_char, new_uuid, now_rfc3339,
    routes_to_api_summary,
};
use crate::repository::{is_latest, latest_seq, spec_has_name, Record, Repository};
use crate::route_handlers::{create_route, delete_route};
use crate::route_model::RouteDefinition;
use crate::text::{spec_contains, spec_ends_with};
use crate::xds_state::{
    cluster_snapshot_reflects, snapshot_reflects, ClusterStored, RouteStored, XdsClusterSnapshot,
    XdsRouteSnapshot,
};

verus! {

/// Creates a Platform API definition: validates it, draws an id, creates
/// the derived `{id}-cluster` through the Native cluster surface, then the
/// derived `{id}-routes` through the Native route surface, and answers 201.
/// When the route write fails the freshly created cluster is deleted again
/// before the error is reported: on every error path both repositories are
/// left exactly as they were.
pub fn create_api_definition(
    cluster_repo: &mut Repository<ClusterStored>,
    cluster_snapshot: &mut XdsClusterSnapshot,
    route_repo: &mut Repository<RouteStored>,
    route_snapshot: &mut XdsRouteSnapshot,
    api: ApiDefinition,
) -> (r: Result<(u16, ApiDefinitionResponse), ApiError>)
    requires
        old(cluster_repo).wf(),
        old(route_repo).wf(),
    ensures
        final(cluster_repo).wf(),
        final(route_repo).wf(),
        !api_definition_valid(api) ==> (r matches Err(e) && e is BadRequest),
        r is Err ==> final(cluster_repo).spec_rows() == old(cluster_repo).spec_rows() && final(route_repo).spec_rows() == old(route_repo).spec_rows(),
        api_definition_valid(api) && api_lowering_acceptable(api) ==> (r matches Err(e) ==> (e
            is Conflict || e is Internal)),
        r matches Ok(p) ==> ({
            &&& p.0 == 201
            &&& api_definition_valid(api)
            &&& p.1.id@.len() == 36
            &&& p.1.cluster_id@ == p.1.id@ + "-cluster"@
            &&& p.1.route_config_id@ == p.1.id@ + "-routes"@
            &&& p.1.listener_id@ == p.1.id@ + "-listener"@
            &&& p.1.name == api.name
            &&& p.1.version == api.version
            &&& p.1.base_path == api.base_path
            &&& final(cluster_repo).spec_rows().len() == old(cluster_repo).spec_rows().len() + 1
            &&& final(cluster_repo).spec_rows().last().name@ == p.1.cluster_id@
            &&& final(cluster_repo).spec_rows().last().version == 1
            &&& exists|b: CreateClusterBody|
                #![auto]
                api_cluster_rel(api, p.1.cluster_id@, b)
                    && crate::cluster_model::cluster_body_rel(
                    b,
                    final(cluster_repo).spec_rows().last().data.config,
                )
            &&& final(route_repo).spec_rows().len() == old(route_repo).spec_rows().len() + 1
            &&& final(route_repo).spec_rows().last().name@ == p.1.route_config_id@
            &&& final(route_repo).spec_rows().last().version == 1
            &&& exists|rd: RouteDefinition|
                #![auto]
                api_route_config_rel(api, p.1.route_config_id@, rd)
                    && crate::xds_route::route_config_rel(
                    rd,
                    final(route_repo).spec_rows().last().data.config,
                )
            &&& final(route_repo).spec_rows().last().data.path_prefix@ == api.base_path@
                + api.routes@[0].path@
            &&& final(route_repo).spec_rows().last().data.cluster_name@ == api.upstream.service@
            &&& cluster_snapshot_reflects(*final(cluster_snapshot), final(cluster_repo).spec_rows())
            &&& snapshot_reflects(*final(route_snapshot), final(route_repo).spec_rows())
        }),
{
    match validate_api_definition(&api) {
        Ok(_) => {},
        Err(e) => {
            return Err(e);
        },
    }
    let api_id = new_uuid();
    let cluster_name = api_id.clone().concat("-cluster");
    let route_name = api_id.clone().concat("-routes");
    let listener_name = api_id.clone().concat("-listener");
    let cluster_body = api_to_cluster(&api, cluster_name.as_str());
    proof {
        reveal_strlit("-cluster");
        assert(cluster_name@.len() == 44);
        assert forall|t: int|
            0 <= t < cluster_name@.len() implies crate::token_validate::is_name_char(
            #[trigger] cluster_name@[t],
        ) by {
            if t < 36 {
                assert(cluster_name@[t] == api_id@[t]);
                assert(is_uuid_char(api_id@[t]));
            } else {
                assert(cluster_name@[t] == ("-cluster")@[t - 36]);
            }
        }
        assert(crate::cluster_model::spec_resource_name_valid(cluster_name@));
        if api_definition_valid(api) && api_lowering_acceptable(api) {
            lemma_lowered_cluster_valid(api, cluster_name@, cluster_body);
        }
    }
    let cluster_row_id = new_uuid();
    let ghost cluster_rows_before = cluster_repo.spec_rows();
    match create_cluster(cluster_repo, cluster_snapshot, cluster_row_id, cluster_body) {
        Ok(_) => {},
        Err(e) => {
            return Err(e);
        },
    }
    let ghost cluster_rows_mid = cluster_repo.spec_rows();
    let route_def = api_to_route_config(&api, route_name.as_str());
    let ghost rd = route_def;
    proof {
        reveal_strlit("-routes");
        assert(route_name@.len() == 43);
        if api_definition_valid(api) && api_lowering_acceptable(api) {
            lemma_lowered_route_valid(api, route_name@, rd);
        }
        crate::platform_api_definitions::lemma_platform_round_trip(api, route_name@, rd);
    }
    let route_row_id = new_uuid();
    match create_route(route_repo, route_snapshot, route_row_id, route_def) {
        Ok(_) => {},
        Err(e) => {
            // compensate: remove the cluster this request just created
            match delete_cluster(cluster_repo, cluster_snapshot, cluster_name.as_str()) {
                Ok(_) => {},
                Err(_) => {},
            }
            proof {
                assert(cluster_rows_mid.drop_last() =~= cluster_rows_before);
                crate::repository::lemma_remove_name_noop(cluster_rows_before, cluster_name@);
            }
            return Err(synthesize_rollback_error(e));
        },
    }
    let created_at = now_rfc3339();
    let updated_at = created_at.clone();
    let response = ApiDefinitionResponse {
        id: api_id,
        name: api.name,
        version: api.version,
        base_path: api.base_path,
        upstream: api.upstream,
        routes: api.routes,
        policies: api.policies,
        route_config_id: route_name,
        listener_id: listener_name,
        cluster_id: cluster_name,
        metadata: api.metadata,
        created_at,
        updated_at,
    };
    Ok((201, response))
}

/// Which latest route rows a listing query admits: Platform-named rows
/// whose name also contains the query's name filter when one is given.
pub open spec fn spec_api_match(s: Seq<Record<RouteStored>>, i: int, q: ListApisQuery) -> bool {
    &&& (spec_ends_with(s[i].name@, "-routes"@) || spec_contains(s[i].name@, "-api-"@))
    &&& (q.name matches Some(f) ==> spec_contains(s[i].name@, f@))
}

pub open spec fn spec_api_offset(q: ListApisQuery) -> int {
    match q.offset {
        Some(v) => if v >= 0 {
            v as int
        } else {
            0
        },
        None => 0,
    }
}

pub open spec fn spec_api_limit(q: ListApisQuery, total: int) -> int {
    match q.limit {
        Some(v) => if v >= 0 {
            v as int
        } else {
            0
        },
        None => total,
    }
}

/// The row indices a listing admits among the first `n` latest rows, in
/// order.
pub open spec fn spec_listed_upto(
    s: Seq<Record<RouteStored>>,
    q: ListApisQuery,
    lat: Seq<int>,
    n: int,
) -> Seq<int>
    decreases n,
{
    if n <= 0 {
        Seq::empty()
    } else {
        spec_listed_upto(s, q, lat, n - 1) + (if spec_api_match(s, lat[n - 1], q) {
            seq![lat[n - 1]]
        } else {
            Seq::empty()
        })
    }
}

/// The row indices a listing admits, in order.
pub open spec fn spec_listed(s: Seq<Record<RouteStored>>, q: ListApisQuery) -> Seq<int> {
    spec_listed_upto(s, q, latest_seq(s), latest_seq(s).len() as int)
}

/// Lists the Platform-originated API definitions as summaries projected
/// from the stored route configurations: one summary per latest route row
/// whose name follows the Platform naming convention and passes the name
/// filter, windowed by the query's offset and limit.  The version filter has
/// no stored counterpart under the projection design — the canonical
/// repositories retain no Platform version — so it does not narrow the
/// listing.
pub fn list_api_definitions(route_repo: &Repository<RouteStored>, params: &ListApisQuery) -> (r:
    Vec<JsonVal>)
    ensures
        r@.len() == crate::route_handlers::spec_window(
            spec_listed(route_repo.spec_rows(), *params).len() as int,
            spec_api_offset(*params),
            spec_api_limit(*params, spec_listed(route_repo.spec_rows(), *params).len() as int),
        ),
        forall|t: int|
            0 <= t < r@.len() ==> 0 <= #[trigger] spec_listed(route_repo.spec_rows(), *params)[
            spec_api_offset(*params) + t] < route_repo.spec_rows().len(),
        forall|t: int|
            0 <= t < r@.len() ==> api_summary_rel(
                route_repo.spec_rows()[spec_listed(route_repo.spec_rows(), *params)[
                spec_api_offset(*params) + t]].name@,
                route_repo.spec_rows()[spec_listed(route_repo.spec_rows(), *params)[
                spec_api_offset(*params) + t]].data.config,
                #[trigger] r@[t],
            ),
{
    let idx = route_repo.latest_indices();
    let n = idx.len();
    let ghost rows = route_repo.spec_rows();
    let ghost lat = latest_seq(route_repo.spec_rows());
    let mut selected: Vec<usize> = Vec::new();
    let mut k: usize = 0;
    while k < n
        invariant
            k <= n,
            n == idx@.len(),
            rows == route_repo.spec_rows(),
            lat == latest_seq(route_repo.spec_rows()),
            idx@.len() == lat.len(),
            forall|t: int|
                0 <= t < idx@.len() ==> is_latest(route_repo.spec_rows(), #[trigger] idx@[t] as int),
            forall|t: int| 0 <= t < idx@.len() ==> #[trigger] idx@[t] as int == lat[t],
            selected@.len() == spec_listed_upto(rows, *params, lat, k as int).len(),
            forall|t: int|
                0 <= t < selected@.len() ==> #[trigger] selected@[t] as int == spec_listed_upto(
                    rows,
                    *params,
                    lat,
                    k as int,
                )[t],
            forall|t: int|
                0 <= t < selected@.len() ==> 0 <= #[trigger] selected@[t] < rows.len(),
        decreases n - k,
    {
        let row = route_repo.row_at(idx[k]);
        let name_ok: bool = match &params.name {
            Some(f) => crate::text::contains_sub(row.name.as_str(), f.as_str()),
            None => true,
        };
        if is_platform_api_routes(row.name.as_str()) && name_ok {
            proof {
                assert(spec_api_match(rows, lat[k as int], *params));
            }
            selected.push(idx[k]);
        } else {
            proof {
                assert(!spec_api_match(rows, lat[k as int], *params));
            }
        }
        k = k + 1;
    }
    proof {
        assert(spec_listed_upto(rows, *params, lat, n as int) == spec_listed(rows, *params));
    }
    let total = selected.len();
    let o: usize = match params.offset {
        Some(v) => if v > 0 {
            v as usize
        } else {
            0
        },
        None => 0,
    };
    let l: usize = match params.limit {
        Some(v) => if v > 0 {
            v as usize
        } else {
            0
        },
        None => total,
    };
    let mut out: Vec<JsonVal> = Vec::new();
    if o >= total {
        return out;
    }
    let count = if l <= total - o {
        l
    } else {
        total - o
    };
    let mut t: usize = 0;
    while t < count
        invariant
            t <= count,
            o + count <= total,
            total == selected@.len(),
            rows == route_repo.spec_rows(),
            count == crate::route_handlers::spec_window(
                spec_listed(rows, *params).len() as int,
                spec_api_offset(*params),
                spec_api_limit(*params, spec_listed(rows, *params).len() as int),
            ),
            o == spec_api_offset(*params),
            selected@.len() == spec_listed(rows, *params).len(),
            forall|u: int|
                0 <= u < selected@.len() ==> #[trigger] selected@[u] as int == spec_listed(
                    rows,
                    *params,
                )[u],
            forall|u: int| 0 <= u < selected@.len() ==> 0 <= #[trigger] selected@[u] < rows.len(),
            out@.len() == t,
            forall|u: int|
                0 <= u < t ==> api_summary_rel(
                    rows[spec_listed(rows, *params)[o + u]].name@,
                    rows[spec_listed(rows, *params)[o + u]].data.config,
                    #[trigger] out@[u],
                ),
        decreases count - t,
    {
        let row = route_repo.row_at(selected[o + t]);
        out.push(routes_to_api_summary(row.name.as_str(), &row.data.config));
        t = t + 1;
    }
    proof {
        assert forall|u: int|
            0 <= u < out@.len() implies 0 <= #[trigger] spec_listed(rows, *params)[
        spec_api_offset(*params) + u] < rows.len() by {
            assert(selected@[o + u] as int == spec_listed(rows, *params)[o + u]);
            assert(0 <= selected@[o + u] < rows.len());
        }
    }
    out
}

/// Projects the derived route configuration of an API definition id to its
/// summary, or 404 when no `{id}-routes` resource exists.
pub fn get_api_definition_by_id(route_repo: &Repository<RouteStored>, id: &str) -> (r: Result<
    JsonVal,
    ApiError,
>)
    ensures
        spec_has_name(route_repo.spec_rows(), id@ + "-routes"@) <==> r is Ok,
        r matches Err(e) ==> e is NotFound,
        r matches Ok(v) ==> exists|i: int|
            is_latest(route_repo.spec_rows(), i) && (#[trigger] route_repo.spec_rows()[i]).name@
                == id@ + "-routes"@ && api_summary_rel(
                route_repo.spec_rows()[i].name@,
                route_repo.spec_rows()[i].data.config,
                v,
            ),
{
    let route_name = String::from_str(id).concat("-routes");
    match route_repo.get_by_name(route_name.as_str()) {
        Some(rec) => {
            let summary = routes_to_api_summary(rec.name.as_str(), &rec.data.config);
            proof {
                let s = route_repo.spec_rows();
                let i = choose|i: int|
                    is_latest(s, i) && (#[trigger] s[i]).name@ == route_name@ && *rec == s[i];
                assert(is_latest(s, i) && s[i].name@ == id@ + "-routes"@ && api_summary_rel(
                    s[i].name@,
                    s[i].data.config,
                    summary,
                ));
            }
            Ok(summary)
        },
        None => Err(ApiError::NotFound(String::from_str("API definition not found"))),
    }
}

/// Deletes the derived resources of an API definition id, best-effort: the
/// `{id}-routes` and `{id}-cluster` resources are each removed when
/// present (the system-owned default gateway route configuration stays);
/// 404 only when nothing was deleted.
pub fn delete_api_definition(
    cluster_repo: &mut Repository<ClusterStored>,
    cluster_snapshot: &mut XdsClusterSnapshot,
    route_repo: &mut Repository<RouteStored>,
    route_snapshot: &mut XdsRouteSnapshot,
    id: &str,
) -> (r: Result<u16, ApiError>)
    requires
        old(cluster_repo).wf(),
        old(route_repo).wf(),
    ensures
        final(cluster_repo).wf(),
        final(route_repo).wf(),
        !crate::route_validate::spec_is_default_gateway_route(id@ + "-routes"@)
            ==> !spec_has_name(final(route_repo).spec_rows(), id@ + "-routes"@),
        !spec_has_name(final(cluster_repo).spec_rows(), id@ + "-cluster"@),
        r matches Ok(code) ==> code == 204,
        r matches Err(e) ==> e is NotFound,
        r is Err <==> ((crate::route_validate::spec_is_default_gateway_route(id@ + "-routes"@)
            || !spec_has_name(old(route_repo).spec_rows(), id@ + "-routes"@)) && !spec_has_name(
            old(cluster_repo).spec_rows(),
            id@ + "-cluster"@,
        )),
{
    let route_name = String::from_str(id).concat("-routes");
    let cluster_name = String::from_str(id).concat("-cluster");
    let route_deleted: bool = match delete_route(route_repo, route_snapshot, route_name.as_str()) {
        Ok(_) => true,
        Err(_) => false,
    };
    let cluster_deleted: bool = match delete_cluster(
        cluster_repo,
        cluster_snapshot,
        cluster_name.as_str(),
    ) {
        Ok(_) => true,
        Err(_) => false,
    };
    if route_deleted || cluster_deleted {
        Ok(204)
    } else {
        Err(ApiError::NotFound(String::from_str("API definition not found")))
    }
}


/// Updates a Platform API definition: validates it, demands the derived
/// `{id}-routes` resource to exist, then replaces the derived cluster and
/// route configuration through the Native surfaces with the freshly lowered
/// forms.
pub fn update_api_definition(
    cluster_repo: &mut Repository<ClusterStored>,
    cluster_snapshot: &mut XdsClusterSnapshot,
    route_repo: &mut Repository<RouteStored>,
    route_snapshot: &mut XdsRouteSnapshot,
    id: &str,
    api: ApiDefinition,
) -> (r: Result<ApiDefinitionResponse, ApiError>)
    requires
        old(cluster_repo).wf(),
        old(route_repo).wf(),
        old(cluster_repo).spec_rows().len() < 0xffff_ffff_ffff_ffff,
        old(route_repo).spec_rows().len() < 0xffff_ffff_ffff_ffff,
    ensures
        final(cluster_repo).wf(),
        final(route_repo).wf(),
        !api_definition_valid(api) ==> (r matches Err(e) && e is BadRequest && final(route_repo).spec_rows() == old(route_repo).spec_rows() && final(cluster_repo).spec_rows() == old(
            cluster_repo,
        ).spec_rows()),
        api_definition_valid(api) && !spec_has_name(old(route_repo).spec_rows(), id@ + "-routes"@)
            ==> (r matches Err(e) && e is NotFound && final(route_repo).spec_rows() == old(
            route_repo,
        ).spec_rows() && final(cluster_repo).spec_rows() == old(cluster_repo).spec_rows()),
        r is Err ==> final(route_repo).spec_rows() == old(route_repo).spec_rows(),
        r is Err ==> (final(cluster_repo).spec_rows() == old(cluster_repo).spec_rows() || (
        spec_has_name(final(cluster_repo).spec_rows(), id@ + "-cluster"@)
            && cluster_snapshot_reflects(
            *final(cluster_snapshot),
            final(cluster_repo).spec_rows(),
        ))),
        r matches Ok(resp) ==> ({
            &&& resp.id@ == id@
            &&& resp.cluster_id@ == id@ + "-cluster"@
            &&& resp.route_config_id@ == id@ + "-routes"@
            &&& resp.listener_id@ == id@ + "-listener"@
            &&& spec_has_name(final(route_repo).spec_rows(), id@ + "-routes"@)
            &&& snapshot_reflects(*final(route_snapshot), final(route_repo).spec_rows())
            &&& exists|rd: RouteDefinition|
                #![auto]
                api_route_config_rel(api, id@ + "-routes"@, rd)
                    && crate::xds_route::route_config_rel(
                    rd,
                    final(route_repo).spec_rows().last().data.config,
                )
            &&& final(route_repo).spec_rows().last().data.path_prefix@ == api.base_path@
                + api.routes@[0].path@
            &&& final(route_repo).spec_rows().last().data.cluster_name@ == api.upstream.service@
        }),
{
    match validate_api_definition(&api) {
        Ok(_) => {},
        Err(e) => {
            return Err(e);
        },
    }
    let route_name = String::from_str(id).concat("-routes");
    let cluster_name = String::from_str(id).concat("-cluster");
    let listener_name = String::from_str(id).concat("-listener");
    if !route_repo.contains_name(route_name.as_str()) {
        return Err(ApiError::NotFound(String::from_str("API definition not found")));
    }
    // refresh the derived cluster first; create it anew when it is absent
    let cluster_body = api_to_cluster(&api, cluster_name.as_str());
    if cluster_repo.contains_name(cluster_name.as_str()) {
        let new_cluster_row = new_uuid();
        match crate::cluster_handlers::update_cluster(
            cluster_repo,
            cluster_snapshot,
            cluster_name.as_str(),
            new_cluster_row,
            cluster_body,
        ) {
            Ok(_) => {},
            Err(e) => {
                return Err(e);
            },
        }
    } else {
        let new_cluster_row = new_uuid();
        match create_cluster(cluster_repo, cluster_snapshot, new_cluster_row, cluster_body) {
            Ok(_) => {},
            Err(e) => {
                return Err(e);
            },
        }
    }
    proof {
        let cs = cluster_repo.spec_rows();
        assert(cs[cs.len() - 1].name@ == cluster_name@);
        assert(spec_has_name(cs, id@ + "-cluster"@));
    }
    let route_def = api_to_route_config(&api, route_name.as_str());
    let ghost rd = route_def;
    proof {
        crate::platform_api_definitions::lemma_platform_round_trip(api, route_name@, rd);
    }
    let new_route_row = new_uuid();
    match crate::route_handlers::update_route(
        route_repo,
        route_snapshot,
        route_name.as_str(),
        new_route_row,
        route_def,
    ) {
        Ok(_) => {},
        Err(e) => {
            return Err(e);
        },
    }
    let created_at = now_rfc3339();
    let updated_at = created_at.clone();
    let response = ApiDefinitionResponse {
        id: String::from_str(id),
        name: api.name,
        version: api.version,
        base_path: api.base_path,
        upstream: api.upstream,
        routes: api.routes,
        policies: api.policies,
        route_config_id: route_name,
        listener_id: listener_name,
        cluster_id: cluster_name,
        metadata: api.metadata,
        created_at,
        updated_at,
    };
    Ok(response)
}


/// Builds the single error reported for a partially failed cascaded create:
/// the first failing step, with a note that the derived cluster was rolled
/// back.  The error keeps its kind so the status mapping stays right.
fn synthesize_rollback_error(e: ApiError) -> (r: ApiError)
    ensures
        r.spec_status_code() == e.spec_status_code(),
        e is Validation ==> r is Validation,
        e is BadRequest ==> r is BadRequest,
        e is Unauthorized ==> r is Unauthorized,
        e is Forbidden ==> r is Forbidden,
        e is NotFound ==> r is NotFound,
        e is Conflict ==> r is Conflict,
        e is ServiceUnavailable ==> r is ServiceUnavailable,
        e is Internal ==> r is Internal,
{
    let mut message = String::from_str("creating the derived route configuration failed: ");
    message.append(e.message().as_str());
    message.append("; the derived cluster was rolled back");
    match e {
        ApiError::Validation(_) => ApiError::Validation(message),
        ApiError::BadRequest(_) => ApiError::BadRequest(message),
        ApiError::Unauthorized(_) => ApiError::Unauthorized(message),
        ApiError::Forbidden(_) => ApiError::Forbidden(message),
        ApiError::NotFound(_) => ApiError::NotFound(message),
        ApiError::Conflict(_) => ApiError::Conflict(message),
        ApiError::ServiceUnavailable(_) => ApiError::ServiceUnavailable(message),
        ApiError::Internal(_) => ApiError::Internal(message),
    }
}

} // verus!
