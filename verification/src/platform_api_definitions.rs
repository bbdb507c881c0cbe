//! The Platform API definition model: the higher-level API-gateway
//! description, its policies, and the deterministic lowering to the
//! canonical cluster and route configuration it owns.

use vstd::prelude::*;

use crate::cluster_model::{CreateClusterBody, EndpointRequest};
use crate::json::JsonVal;
use crate::route_model::{
    PathMatchDefinition, RouteActionDefinition, RouteDefinition, RouteMatchDefinition,
    RouteRuleDefinition, VirtualHostDefinition,
};
use crate::text::opt_str_equiv;

verus! {

/// A Platform API definition, the input the Platform surface accepts.
pub struct ApiDefinition {
    pub name: String,
    pub version: String,
    pub base_path: String,
    pub upstream: UpstreamConfig,
    pub routes: Vec<ApiRoute>,
    pub policies: Option<ApiPolicies>,
    pub metadata: Option<JsonVal>,
}

pub struct UpstreamConfig {
    pub service: String,
    pub endpoints: Vec<UpstreamEndpoint>,
    pub tls: bool,
    pub load_balancing: String,
}

pub struct UpstreamEndpoint {
    pub host: String,
    pub port: u16,
    pub weight: u32,
}

pub struct ApiRoute {
    pub path: String,
    pub methods: Vec<String>,
    pub description: Option<String>,
    pub policies: Option<ApiPolicies>,
}

pub struct ApiPolicies {
    pub rate_limit: Option<RateLimitPolicy>,
    pub authentication: Option<AuthenticationPolicy>,
    pub authorization: Option<AuthorizationPolicy>,
    pub cors: Option<CorsPolicy>,
    pub circuit_breaker: Option<CircuitBreakerPolicy>,
    pub retry: Option<RetryPolicy>,
    pub timeout: Option<TimeoutPolicy>,
}

pub struct RateLimitPolicy {
    pub requests: u32,
    pub interval: String,
    pub key_by: Option<String>,
}

pub struct AuthenticationPolicy {
    pub auth_type: String,
    pub required: bool,
    pub config: Option<JsonVal>,
}

pub struct AuthorizationPolicy {
    pub roles: Option<Vec<String>>,
    pub permissions: Option<Vec<String>>,
}

pub struct CorsPolicy {
    pub origins: Vec<String>,
    pub methods: Vec<String>,
    pub headers: Vec<String>,
    pub allow_credentials: bool,
    pub max_age: Option<u32>,
}

#[derive(Clone, Copy)]
pub struct CircuitBreakerPolicy {
    pub max_requests: Option<u32>,
    pub interval_ms: Option<u64>,
    pub consecutive_errors: Option<u32>,
}

pub struct RetryPolicy {
    pub attempts: u32,
    pub backoff: String,
    pub initial_delay_ms: Option<u64>,
}

#[derive(Clone, Copy)]
pub struct TimeoutPolicy {
    pub request: Option<u32>,
    pub idle: Option<u32>,
}

/// The view of a created API definition: the definition plus the ids of the
/// derived resources.
pub struct ApiDefinitionResponse {
    pub id: String,
    pub name: String,
    pub version: String,
    pub base_path: String,
    pub upstream: UpstreamConfig,
    pub routes: Vec<ApiRoute>,
    pub policies: Option<ApiPolicies>,
    pub route_config_id: String,
    pub listener_id: String,
    pub cluster_id: String,
    pub metadata: Option<JsonVal>,
    pub created_at: String,
    pub updated_at: String,
}

/// Filters of the Platform list endpoint.
pub struct ListApisQuery {
    pub limit: Option<i32>,
    pub offset: Option<i32>,
    pub name: Option<String>,
    pub version: Option<String>,
}

// === Defaults ===

/// The load-balancing policy an upstream gets when none is named.
pub fn default_load_balancing() -> (r: String)
    ensures
        r@ == "ROUND_ROBIN"@,
{
    String::from_str("ROUND_ROBIN")
}

/// The weight an endpoint gets when none is named.
pub fn default_weight() -> (r: u32)
    ensures
        r == 100,
{
    100
}

/// Whether authentication is required when the policy does not say.
pub fn default_required() -> (r: bool)
    ensures
        r == true,
{
    true
}

/// The retry backoff strategy used when none is named.
pub fn default_backoff() -> (r: String)
    ensures
        r@ == "exponential"@,
{
    String::from_str("exponential")
}

// === Validation ===

/// What the Platform surface checks before accepting a definition: name,
/// version and base path lengths, and at least one route.
pub open spec fn api_definition_valid(a: ApiDefinition) -> bool {
    &&& 1 <= a.name@.len() <= 100
    &&& 1 <= a.version@.len() <= 50
    &&& 1 <= a.base_path@.len() <= 255
    &&& 1 <= a.upstream.service@.len() <= 100
    &&& a.upstream.endpoints@.len() >= 1
    &&& a.routes@.len() >= 1
    &&& forall|i: int| 0 <= i < a.routes@.len() ==> 1 <= (#[trigger] a.routes@[i]).path@.len()
        <= 255
    &&& forall|i: int| 0 <= i < a.routes@.len() ==> (#[trigger] a.routes@[i]).methods@.len() >= 1
}

/// Accepts exactly the valid definitions.
pub fn validate_api_definition(a: &ApiDefinition) -> (r: Result<(), crate::errors::ApiError>)
    ensures
        r is Ok <==> api_definition_valid(*a),
        r matches Err(e) ==> e is BadRequest,
{
    let nl = a.name.unicode_len();
    if nl < 1 || nl > 100 {
        return Err(
            crate::errors::ApiError::BadRequest(String::from_str("Validation failed: name")),
        );
    }
    let vl = a.version.unicode_len();
    if vl < 1 || vl > 50 {
        return Err(
            crate::errors::ApiError::BadRequest(String::from_str("Validation failed: version")),
        );
    }
    let bl = a.base_path.unicode_len();
    if bl < 1 || bl > 255 {
        return Err(
            crate::errors::ApiError::BadRequest(String::from_str("Validation failed: basePath")),
        );
    }
    let sl = a.upstream.service.unicode_len();
    if sl < 1 || sl > 100 {
        return Err(
            crate::errors::ApiError::BadRequest(String::from_str("Validation failed: service")),
        );
    }
    if a.upstream.endpoints.len() < 1 {
        return Err(
            crate::errors::ApiError::BadRequest(
                String::from_str("Validation failed: endpoints"),
            ),
        );
    }
    if a.routes.len() < 1 {
        return Err(
            crate::errors::ApiError::BadRequest(String::from_str("Validation failed: routes")),
        );
    }
    let mut i: usize = 0;
    while i < a.routes.len()
        invariant
            i <= a.routes@.len(),
            forall|j: int|
                0 <= j < i ==> 1 <= (#[trigger] a.routes@[j]).path@.len() <= 255 && a.routes@[j].methods@.len()
                    >= 1,
        decreases a.routes@.len() - i,
    {
        let pl = a.routes[i].path.unicode_len();
        if pl < 1 || pl > 255 {
            return Err(
                crate::errors::ApiError::BadRequest(
                    String::from_str("Validation failed: route path"),
                ),
            );
        }
        if a.routes[i].methods.len() < 1 {
            return Err(
                crate::errors::ApiError::BadRequest(
                    String::from_str("Validation failed: route methods"),
                ),
            );
        }
        i = i + 1;
    }
    Ok(())
}

// === Lowering to the canonical model ===

/// What the derived cluster of a definition looks like, field by field.
pub open spec fn api_cluster_rel(a: ApiDefinition, name: Seq<char>, b: CreateClusterBody) -> bool {
    &&& b.name@ == name
    &&& (b.service_name matches Some(s) && s@ == a.upstream.service@)
    &&& b.endpoints@.len() == a.upstream.endpoints@.len()
    &&& forall|i: int|
        0 <= i < b.endpoints@.len() ==> (#[trigger] b.endpoints@[i]).host@
            == a.upstream.endpoints@[i].host@ && b.endpoints@[i].port
            == a.upstream.endpoints@[i].port
    &&& b.connect_timeout_seconds == spec_policy_timeout(a.policies)
    &&& (b.use_tls matches Some(t) && t == a.upstream.tls)
    &&& b.tls_server_name is None
    &&& b.dns_lookup_family is None
    &&& (b.lb_policy matches Some(p) && p@ == a.upstream.load_balancing@)
    &&& b.health_checks@.len() == 0
    &&& b.circuit_breakers is None
    &&& b.outlier_detection is None
}

/// The request timeout of a policy set, in seconds, when one is set.
pub open spec fn spec_policy_timeout(p: Option<ApiPolicies>) -> Option<u64> {
    match p {
        Some(pol) => match pol.timeout {
            Some(t) => match t.request {
                Some(r) => Some(r as u64),
                None => None,
            },
            None => None,
        },
        None => None,
    }
}

fn policy_timeout(p: &Option<ApiPolicies>) -> (r: Option<u64>)
    ensures
        r == spec_policy_timeout(*p),
{
    match p {
        Some(pol) => match &pol.timeout {
            Some(t) => match t.request {
                Some(req) => Some(req as u64),
                None => None,
            },
            None => None,
        },
        None => None,
    }
}

/// Lowers a definition to its derived cluster: the upstream endpoints and
/// service name, the upstream TLS and load-balancing settings, and the
/// policy timeout as the connect timeout.
pub fn api_to_cluster(api: &ApiDefinition, cluster_name: &str) -> (r: CreateClusterBody)
    ensures
        api_cluster_rel(*api, cluster_name@, r),
{
    let mut endpoints: Vec<EndpointRequest> = Vec::new();
    let mut i: usize = 0;
    while i < api.upstream.endpoints.len()
        invariant
            i <= api.upstream.endpoints@.len(),
            endpoints@.len() == i,
            forall|j: int|
                0 <= j < i ==> (#[trigger] endpoints@[j]).host@
                    == api.upstream.endpoints@[j].host@ && endpoints@[j].port
                    == api.upstream.endpoints@[j].port,
        decreases api.upstream.endpoints@.len() - i,
    {
        endpoints.push(
            EndpointRequest {
                host: api.upstream.endpoints[i].host.clone(),
                port: api.upstream.endpoints[i].port,
            },
        );
        i = i + 1;
    }
    CreateClusterBody {
        name: String::from_str(cluster_name),
        service_name: Some(api.upstream.service.clone()),
        endpoints,
        connect_timeout_seconds: policy_timeout(&api.policies),
        use_tls: Some(api.upstream.tls),
        tls_server_name: None,
        dns_lookup_family: None,
        lb_policy: Some(api.upstream.load_balancing.clone()),
        health_checks: Vec::new(),
        circuit_breakers: None,
        outlier_detection: None,
    }
}

/// What the derived route configuration of a definition looks like: one
/// virtual host named after the API, every domain, and one prefix-forward
/// rule per route, the prefix being the base path followed by the route
/// path.
pub open spec fn api_route_config_rel(
    a: ApiDefinition,
    name: Seq<char>,
    r: RouteDefinition,
) -> bool {
    &&& r.name@ == name
    &&& r.virtual_hosts@.len() == 1
    &&& r.virtual_hosts@[0].name@ == a.name@
    &&& r.virtual_hosts@[0].domains.deep_view() =~= seq![("*")@]
    &&& r.virtual_hosts@[0].typed_per_filter_config@.len() == 0
    &&& r.virtual_hosts@[0].routes@.len() == a.routes@.len()
    &&& forall|i: int|
        0 <= i < a.routes@.len() ==> api_rule_rel(
            a,
            a.routes@[i],
            #[trigger] r.virtual_hosts@[0].routes@[i],
        )
}

pub open spec fn api_rule_rel(a: ApiDefinition, route: ApiRoute, r: RouteRuleDefinition) -> bool {
    &&& opt_str_equiv(r.name, route.description)
    &&& (r.route_match.path matches PathMatchDefinition::Prefix { value } && value@ == a.base_path@
        + route.path@)
    &&& r.route_match.headers@.len() == 0
    &&& r.route_match.query_parameters@.len() == 0
    &&& (r.action matches RouteActionDefinition::Forward {
        cluster,
        timeout_seconds,
        prefix_rewrite,
        template_rewrite,
    } && cluster@ == a.upstream.service@ && timeout_seconds == spec_policy_timeout(a.policies)
        && prefix_rewrite is None && template_rewrite is None)
    &&& r.typed_per_filter_config@.len() == 0
}

/// Lowers a definition to its derived route configuration.
pub fn api_to_route_config(api: &ApiDefinition, route_config_name: &str) -> (r: RouteDefinition)
    ensures
        api_route_config_rel(*api, route_config_name@, r),
{
    let timeout = policy_timeout(&api.policies);
    let mut routes: Vec<RouteRuleDefinition> = Vec::new();
    let mut i: usize = 0;
    while i < api.routes.len()
        invariant
            i <= api.routes@.len(),
            routes@.len() == i,
            timeout == spec_policy_timeout(api.policies),
            forall|j: int|
                0 <= j < i ==> api_rule_rel(*api, api.routes@[j], #[trigger] routes@[j]),
        decreases api.routes@.len() - i,
    {
        let full_path = api.base_path.clone().concat(api.routes[i].path.as_str());
        routes.push(
            RouteRuleDefinition {
                name: crate::text::dup_opt_string(&api.routes[i].description),
                route_match: RouteMatchDefinition {
                    path: PathMatchDefinition::Prefix { value: full_path },
                    headers: Vec::new(),
                    query_parameters: Vec::new(),
                },
                action: RouteActionDefinition::Forward {
                    cluster: api.upstream.service.clone(),
                    timeout_seconds: timeout,
                    prefix_rewrite: None,
                    template_rewrite: None,
                },
                typed_per_filter_config: Vec::new(),
            },
        );
        i = i + 1;
    }
    let mut domains: Vec<String> = Vec::new();
    domains.push(String::from_str("*"));
    proof {
        assert(domains.deep_view() =~= seq![("*")@]);
    }
    let mut virtual_hosts: Vec<VirtualHostDefinition> = Vec::new();
    virtual_hosts.push(
        VirtualHostDefinition {
            name: api.name.clone(),
            domains,
            routes,
            typed_per_filter_config: Vec::new(),
        },
    );
    RouteDefinition { name: String::from_str(route_config_name), virtual_hosts }
}

// === When the lowered forms pass the Native validators ===

/// The extra conditions under which the lowered cluster and route
/// configuration of a valid definition are accepted by the Native surfaces:
/// usable endpoint hosts and ports, a recognised load-balancing name, a
/// non-blank upstream service, non-blank route prefixes, and rule names
/// (route descriptions) within the length bounds.
pub open spec fn api_lowering_acceptable(a: ApiDefinition) -> bool {
    &&& forall|i: int|
        0 <= i < a.upstream.endpoints@.len() ==> (#[trigger] a.upstream.endpoints@[i]).port >= 1
    &&& forall|i: int|
        0 <= i < a.upstream.endpoints@.len() ==> !crate::text::spec_is_blank(
            (#[trigger] a.upstream.endpoints@[i]).host@,
        )
    &&& crate::cluster_model::spec_lb_policy_valid(a.upstream.load_balancing@)
    &&& !crate::text::spec_is_blank(a.upstream.service@)
    &&& forall|i: int|
        0 <= i < a.routes@.len() ==> !crate::text::spec_is_blank(
            a.base_path@ + (#[trigger] a.routes@[i]).path@,
        )
    &&& forall|i: int|
        0 <= i < a.routes@.len() ==> ((#[trigger] a.routes@[i]).description matches Some(d) ==> 1
            <= d@.len() <= 100)
}

/// The derived cluster request of a valid, acceptable definition passes the
/// cluster validator whenever the derived name does.
pub proof fn lemma_lowered_cluster_valid(a: ApiDefinition, name: Seq<char>, b: CreateClusterBody)
    requires
        api_definition_valid(a),
        api_lowering_acceptable(a),
        api_cluster_rel(a, name, b),
        crate::cluster_model::spec_resource_name_valid(name),
    ensures
        crate::cluster_model::cluster_body_valid(b),
{
    assert forall|i: int| 0 <= i < b.endpoints@.len() implies (#[trigger] b.endpoints@[i]).port
        >= 1 && !crate::text::spec_is_blank(b.endpoints@[i].host@) by {
        assert(b.endpoints@[i].port == a.upstream.endpoints@[i].port);
        assert(b.endpoints@[i].host@ == a.upstream.endpoints@[i].host@);
    }
}

/// The derived route configuration of a valid, acceptable definition passes
/// the route payload validator whenever the derived name fits.
pub proof fn lemma_lowered_route_valid(a: ApiDefinition, name: Seq<char>, r: RouteDefinition)
    requires
        api_definition_valid(a),
        api_lowering_acceptable(a),
        api_route_config_rel(a, name, r),
        1 <= name.len() <= 100,
    ensures
        crate::route_validate::route_payload_valid(r),
{
    reveal_strlit("*");
    let vh = r.virtual_hosts@[0];
    assert(vh.domains@.len() == 1);
    assert((vh.domains@[0])@ == ("*")@) by {
        assert(vh.domains.deep_view()[0] == (vh.domains@[0])@);
    }
    assert(!crate::text::spec_is_blank((vh.domains@[0])@)) by {
        assert(("*")@[0] == '*');
    }
    assert forall|j: int| 0 <= j < vh.routes@.len() implies crate::route_validate::route_rule_valid(
        #[trigger] vh.routes@[j],
    ) by {
        let rule = vh.routes@[j];
        assert(api_rule_rel(a, a.routes@[j], rule));
        assert(!crate::text::spec_is_blank(a.base_path@ + a.routes@[j].path@));
        assert(crate::route_validate::route_rule_cross_valid(rule));
    }
    assert(crate::route_validate::virtual_host_valid(vh));
    assert forall|i: int|
        0 <= i < r.virtual_hosts@.len() implies crate::route_validate::virtual_host_valid(
        #[trigger] r.virtual_hosts@[i],
    ) by {
        assert(i == 0);
    }
}

// === The Platform round trip, as a law ===

/// Platform round-trip: the derived route configuration of an accepted
/// definition summarises to a prefix-first path equal to the base path
/// followed by the first route's path, and its first cluster target is the
/// upstream service.  Together with the fixed `-cluster` and `-routes` name
/// suffixes this ties the derived resources listed through the Native
/// surface back to the definition.
pub proof fn lemma_platform_round_trip(a: ApiDefinition, name: Seq<char>, r: RouteDefinition)
    requires
        api_definition_valid(a),
        api_route_config_rel(a, name, r),
    ensures
        crate::route_validate::spec_route_path_prefix(r) == a.base_path@ + a.routes@[0].path@,
        crate::route_validate::spec_route_cluster_summary(r) == a.upstream.service@,
{
    let vhs = r.virtual_hosts@;
    assert(vhs[0].routes@.len() > 0);
    assert(crate::route_validate::spec_first_rule(vhs) == Some(vhs[0].routes@[0]));
    assert(api_rule_rel(a, a.routes@[0], vhs[0].routes@[0]));
}

} // verus!
