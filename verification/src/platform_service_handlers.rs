//! The Platform service surface: a service-oriented abstraction that lowers
//! to the Native cluster model, delegates every write to the cluster
//! surface, and projects cluster views back to the service shape.

use vstd::prelude::*;

use crate::cluster_handlers::{
    create_cluster, delete_cluster, get_cluster, list_clusters, update_cluster,
};
use crate::cluster_model::{
    CircuitBreakersRequest, CircuitBreakerThresholdsRequest, ClusterResponse, CreateClusterBody,
    EndpointSpec, HealthCheckRequest, HealthCheckSpec, OutlierDetectionRequest,
};
use crate::errors::ApiError;
use crate::json::JsonVal;
use crate::repository::{spec_has_id, spec_has_name, Repository};
use crate::route_handlers::ListRoutesQuery;
use crate::xds_state::{ClusterStored, XdsClusterSnapshot};

verus! {

/// A Platform service definition.
pub struct ServiceDefinition {
    pub name: String,
    pub endpoints: Vec<ServiceEndpoint>,
    pub load_balancing: LoadBalancingStrategy,
    pub health_check: Option<ServiceHealthCheck>,
    pub circuit_breaker: Option<ServiceCircuitBreaker>,
    pub outlier_detection: Option<ServiceOutlierDetection>,
    pub metadata: Option<JsonVal>,
}

pub struct ServiceEndpoint {
    pub host: String,
    pub port: u16,
    pub weight: u32,
    pub metadata: Option<JsonVal>,
}

#[derive(Clone, Copy, Debug, PartialEq, Eq, Structural)]
pub enum LoadBalancingStrategy {
    RoundRobin,
    LeastRequest,
    Random,
    RingHash,
    Maglev,
}

pub struct ServiceHealthCheck {
    pub path: String,
    pub interval: u32,
    pub timeout: u32,
    pub healthy_threshold: u32,
    pub unhealthy_threshold: u32,
}

#[derive(Clone, Copy)]
pub struct ServiceCircuitBreaker {
    pub max_requests: Option<u32>,
    pub max_pending_requests: Option<u32>,
    pub max_connections: Option<u32>,
    pub max_retries: Option<u32>,
    pub consecutive_errors: Option<u32>,
    pub interval_ms: Option<u64>,
}

#[derive(Clone, Copy)]
pub struct ServiceOutlierDetection {
    pub consecutive_5xx: Option<u32>,
    pub interval_ms: Option<u64>,
    pub base_ejection_time_ms: Option<u64>,
    pub max_ejection_percent: Option<u32>,
    pub min_healthy_percent: Option<u32>,
}

/// The view of a service the Platform surface returns.
pub struct ServiceResponse {
    pub name: String,
    pub cluster_id: String,
    pub endpoints: Vec<ServiceEndpoint>,
    pub load_balancing: LoadBalancingStrategy,
    pub health_check: Option<ServiceHealthCheck>,
    pub circuit_breaker: Option<ServiceCircuitBreaker>,
    pub outlier_detection: Option<ServiceOutlierDetection>,
    pub metadata: Option<JsonVal>,
}

/// Pagination of the service list endpoint.
pub struct ListServicesQuery {
    pub limit: Option<i32>,
    pub offset: Option<i32>,
}

// === Defaults ===

/// The strategy a service gets when none is named.
pub fn default_load_balancing() -> (r: LoadBalancingStrategy)
    ensures
        r == LoadBalancingStrategy::RoundRobin,
{
    LoadBalancingStrategy::RoundRobin
}

/// The weight an endpoint gets when none is named.
pub fn default_weight() -> (r: u32)
    ensures
        r == 100,
{
    100
}

/// The health check interval, in seconds, when none is named.
pub fn default_health_interval() -> (r: u32)
    ensures
        r == 10,
{
    10
}

/// The health check timeout, in seconds, when none is named.
pub fn default_health_timeout() -> (r: u32)
    ensures
        r == 3,
{
    3
}

/// The healthy threshold when none is named.
pub fn default_healthy_threshold() -> (r: u32)
    ensures
        r == 2,
{
    2
}

/// The unhealthy threshold when none is named.
pub fn default_unhealthy_threshold() -> (r: u32)
    ensures
        r == 2,
{
    2
}

// === Strategy names ===

/// The canonical name of each load-balancing strategy.
pub open spec fn spec_lb_string(s: LoadBalancingStrategy) -> Seq<char> {
    match s {
        LoadBalancingStrategy::RoundRobin => "ROUND_ROBIN"@,
        LoadBalancingStrategy::LeastRequest => "LEAST_REQUEST"@,
        LoadBalancingStrategy::Random => "RANDOM"@,
        LoadBalancingStrategy::RingHash => "RING_HASH"@,
        LoadBalancingStrategy::Maglev => "MAGLEV"@,
    }
}

/// Renders a strategy as its canonical name.
pub fn load_balancing_to_string(strategy: &LoadBalancingStrategy) -> (r: String)
    ensures
        r@ == spec_lb_string(*strategy),
{
    match strategy {
        LoadBalancingStrategy::RoundRobin => String::from_str("ROUND_ROBIN"),
        LoadBalancingStrategy::LeastRequest => String::from_str("LEAST_REQUEST"),
        LoadBalancingStrategy::Random => String::from_str("RANDOM"),
        LoadBalancingStrategy::RingHash => String::from_str("RING_HASH"),
        LoadBalancingStrategy::Maglev => String::from_str("MAGLEV"),
    }
}

/// The strategy a canonical name maps back to; unknown names fall back to
/// round robin.
pub open spec fn spec_string_lb(s: Seq<char>) -> LoadBalancingStrategy {
    if s == "LEAST_REQUEST"@ {
        LoadBalancingStrategy::LeastRequest
    } else if s == "RANDOM"@ {
        LoadBalancingStrategy::Random
    } else if s == "RING_HASH"@ {
        LoadBalancingStrategy::RingHash
    } else if s == "MAGLEV"@ {
        LoadBalancingStrategy::Maglev
    } else {
        LoadBalancingStrategy::RoundRobin
    }
}

/// Parses a strategy name.
pub fn string_to_load_balancing(s: &str) -> (r: LoadBalancingStrategy)
    ensures
        r == spec_string_lb(s@),
{
    if crate::text::str_eq(s, "LEAST_REQUEST") {
        LoadBalancingStrategy::LeastRequest
    } else if crate::text::str_eq(s, "RANDOM") {
        LoadBalancingStrategy::Random
    } else if crate::text::str_eq(s, "RING_HASH") {
        LoadBalancingStrategy::RingHash
    } else if crate::text::str_eq(s, "MAGLEV") {
        LoadBalancingStrategy::Maglev
    } else {
        LoadBalancingStrategy::RoundRobin
    }
}

// === Validation ===

/// What the Platform surface checks before accepting a service: the name
/// length and at least one endpoint.
pub open spec fn service_definition_valid(s: ServiceDefinition) -> bool {
    &&& 1 <= s.name@.len() <= 255
    &&& s.endpoints@.len() >= 1
}

/// Accepts exactly the valid service definitions.
pub fn validate_service_definition(s: &ServiceDefinition) -> (r: Result<(), ApiError>)
    ensures
        r is Ok <==> service_definition_valid(*s),
        r matches Err(e) ==> e is BadRequest,
{
    let nl = s.name.unicode_len();
    if nl < 1 || nl > 255 {
        return Err(ApiError::BadRequest(String::from_str("Validation failed: name")));
    }
    if s.endpoints.len() < 1 {
        return Err(ApiError::BadRequest(String::from_str("Validation failed: endpoints")));
    }
    Ok(())
}

// === Lowering to the cluster model ===

pub open spec fn service_hc_rel(hc: ServiceHealthCheck, r: HealthCheckRequest) -> bool {
    &&& r.check_type@ == "http"@
    &&& (r.path matches Some(p) && p@ == hc.path@)
    &&& r.host is None
    &&& r.method is None
    &&& (r.interval_seconds matches Some(v) && v == hc.interval as u64)
    &&& (r.timeout_seconds matches Some(v) && v == hc.timeout as u64)
    &&& (r.healthy_threshold matches Some(v) && v == hc.healthy_threshold)
    &&& (r.unhealthy_threshold matches Some(v) && v == hc.unhealthy_threshold)
    &&& r.expected_statuses is None
}

/// Milliseconds floored to seconds.
pub open spec fn spec_ms_to_s(v: Option<u64>) -> Option<u64> {
    match v {
        Some(ms) => Some((ms / 1000) as u64),
        None => None,
    }
}

/// What the derived cluster request of a service looks like, field by field.
pub open spec fn service_cluster_rel(s: ServiceDefinition, b: CreateClusterBody) -> bool {
    &&& b.name@ == s.name@
    &&& (b.service_name matches Some(n) && n@ == s.name@)
    &&& b.endpoints@.len() == s.endpoints@.len()
    &&& forall|i: int|
        0 <= i < b.endpoints@.len() ==> (#[trigger] b.endpoints@[i]).host@
            == s.endpoints@[i].host@ && b.endpoints@[i].port == s.endpoints@[i].port
    &&& b.connect_timeout_seconds is None
    &&& b.use_tls is None
    &&& b.tls_server_name is None
    &&& b.dns_lookup_family is None
    &&& (b.lb_policy matches Some(p) && p@ == spec_lb_string(s.load_balancing))
    &&& (match s.health_check {
        Option::Some(hc) => b.health_checks@.len() == 1 && service_hc_rel(
            hc,
            b.health_checks@[0],
        ),
        Option::None => b.health_checks@.len() == 0,
    })
    &&& (match (s.circuit_breaker, b.circuit_breakers) {
        (Option::Some(cb), Option::Some(req)) => {
            &&& (req.default matches Some(t) && t.max_connections == cb.max_connections
                && t.max_pending_requests == cb.max_pending_requests && t.max_requests
                == cb.max_requests && t.max_retries == cb.max_retries)
            &&& req.high is None
        },
        (Option::None, Option::None) => true,
        _ => false,
    })
    &&& (match (s.outlier_detection, b.outlier_detection) {
        (Option::Some(od), Option::Some(req)) => {
            &&& req.consecutive_5xx == od.consecutive_5xx
            &&& req.interval_seconds == spec_ms_to_s(od.interval_ms)
            &&& req.base_ejection_time_seconds == spec_ms_to_s(od.base_ejection_time_ms)
            &&& req.max_ejection_percent == od.max_ejection_percent
        },
        (Option::None, Option::None) => true,
        _ => false,
    })
}

/// Lowers a service definition to the cluster request it creates.
pub fn service_to_cluster(service: &ServiceDefinition) -> (r: CreateClusterBody)
    ensures
        service_cluster_rel(*service, r),
{
    let mut endpoints: Vec<crate::cluster_model::EndpointRequest> = Vec::new();
    let mut i: usize = 0;
    while i < service.endpoints.len()
        invariant
            i <= service.endpoints@.len(),
            endpoints@.len() == i,
            forall|j: int|
                0 <= j < i ==> (#[trigger] endpoints@[j]).host@ == service.endpoints@[j].host@
                    && endpoints@[j].port == service.endpoints@[j].port,
        decreases service.endpoints@.len() - i,
    {
        endpoints.push(
            crate::cluster_model::EndpointRequest {
                host: service.endpoints[i].host.clone(),
                port: service.endpoints[i].port,
            },
        );
        i = i + 1;
    }
    let health_checks: Vec<HealthCheckRequest> = match &service.health_check {
        Some(hc) => {
            let mut v: Vec<HealthCheckRequest> = Vec::new();
            v.push(
                HealthCheckRequest {
                    check_type: String::from_str("http"),
                    path: Some(hc.path.clone()),
                    host: None,
                    method: None,
                    interval_seconds: Some(hc.interval as u64),
                    timeout_seconds: Some(hc.timeout as u64),
                    healthy_threshold: Some(hc.healthy_threshold),
                    unhealthy_threshold: Some(hc.unhealthy_threshold),
                    expected_statuses: None,
                },
            );
            v
        },
        None => Vec::new(),
    };
    let circuit_breakers: Option<CircuitBreakersRequest> = match service.circuit_breaker {
        Some(cb) => Some(
            CircuitBreakersRequest {
                default: Some(
                    CircuitBreakerThresholdsRequest {
                        max_connections: cb.max_connections,
                        max_pending_requests: cb.max_pending_requests,
                        max_requests: cb.max_requests,
                        max_retries: cb.max_retries,
                    },
                ),
                high: None,
            },
        ),
        None => None,
    };
    let outlier_detection: Option<OutlierDetectionRequest> = match service.outlier_detection {
        Some(od) => Some(
            OutlierDetectionRequest {
                consecutive_5xx: od.consecutive_5xx,
                interval_seconds: match od.interval_ms {
                    Some(ms) => Some(ms / 1000),
                    None => None,
                },
                base_ejection_time_seconds: match od.base_ejection_time_ms {
                    Some(ms) => Some(ms / 1000),
                    None => None,
                },
                max_ejection_percent: od.max_ejection_percent,
            },
        ),
        None => None,
    };
    CreateClusterBody {
        name: service.name.clone(),
        service_name: Some(service.name.clone()),
        endpoints,
        connect_timeout_seconds: None,
        use_tls: None,
        tls_server_name: None,
        dns_lookup_family: None,
        lb_policy: Some(load_balancing_to_string(&service.load_balancing)),
        health_checks,
        circuit_breakers,
        outlier_detection,
    }
}

// === Projections back to the service shape ===

pub open spec fn service_endpoints_equiv(a: Seq<ServiceEndpoint>, b: Seq<ServiceEndpoint>) -> bool {
    a.len() == b.len() && forall|i: int|
        0 <= i < a.len() ==> (#[trigger] a[i]).host@ == b[i].host@ && a[i].port == b[i].port
            && a[i].weight == b[i].weight
}

pub open spec fn opt_hc_equiv(a: Option<ServiceHealthCheck>, b: Option<ServiceHealthCheck>) -> bool {
    match (a, b) {
        (Option::None, Option::None) => true,
        (Option::Some(x), Option::Some(y)) => x.path@ == y.path@ && x.interval == y.interval
            && x.timeout == y.timeout && x.healthy_threshold == y.healthy_threshold
            && x.unhealthy_threshold == y.unhealthy_threshold,
        _ => false,
    }
}

/// Builds the service view of a created or updated cluster, reusing the
/// definition the caller submitted.
pub fn cluster_to_service_response(cluster: ClusterResponse, service: ServiceDefinition) -> (r:
    ServiceResponse)
    ensures
        r.name@ == cluster.name@,
        r.cluster_id@ == cluster.name@,
        r.endpoints == service.endpoints,
        r.load_balancing == service.load_balancing,
        r.health_check == service.health_check,
        r.circuit_breaker == service.circuit_breaker,
        r.outlier_detection == service.outlier_detection,
        r.metadata == service.metadata,
{
    let cluster_id = cluster.name.clone();
    ServiceResponse {
        name: cluster.name,
        cluster_id,
        endpoints: service.endpoints,
        load_balancing: service.load_balancing,
        health_check: service.health_check,
        circuit_breaker: service.circuit_breaker,
        outlier_detection: service.outlier_detection,
        metadata: service.metadata,
    }
}

/// What the projection of a cluster back to a service looks like: endpoints
/// with the default weight, the parsed strategy, the first HTTP health
/// check, the default circuit-breaker thresholds, and outlier times back in
/// milliseconds.
pub open spec fn cluster_service_projection_rel(c: ClusterResponse, r: ServiceResponse) -> bool {
    &&& r.name@ == c.name@
    &&& r.cluster_id@ == c.name@
    &&& r.endpoints@.len() == c.config.endpoints@.len()
    &&& forall|i: int|
        0 <= i < r.endpoints@.len() ==> endpoint_projection_rel(
            c.config.endpoints@[i],
            #[trigger] r.endpoints@[i],
        )
    &&& r.load_balancing == (match c.config.lb_policy {
        Some(p) => spec_string_lb(p@),
        None => LoadBalancingStrategy::RoundRobin,
    })
    &&& (if c.config.health_checks@.len() == 0 {
        r.health_check is None
    } else {
        match c.config.health_checks@[0] {
            HealthCheckSpec::Http {
                path,
                interval_seconds,
                timeout_seconds,
                healthy_threshold,
                unhealthy_threshold,
                ..
            } => r.health_check matches Some(hc) && hc.path@ == path@ && hc.interval == ((
            match interval_seconds {
                Some(v) => v,
                None => 10u64,
            }) as u32) && hc.timeout == ((match timeout_seconds {
                Some(v) => v,
                None => 3u64,
            }) as u32) && hc.healthy_threshold == (match healthy_threshold {
                Some(v) => v,
                None => 2u32,
            }) && hc.unhealthy_threshold == (match unhealthy_threshold {
                Some(v) => v,
                None => 2u32,
            }),
            _ => r.health_check is None,
        }
    })
    &&& (match c.config.circuit_breakers {
        Some(cb) => match cb.default {
            Some(t) => r.circuit_breaker matches Some(s) && s.max_requests == t.max_requests
                && s.max_pending_requests == t.max_pending_requests && s.max_connections
                == t.max_connections && s.max_retries == t.max_retries && s.consecutive_errors
                is None && s.interval_ms is None,
            None => r.circuit_breaker is None,
        },
        None => r.circuit_breaker is None,
    })
    &&& (match c.config.outlier_detection {
        Some(od) => r.outlier_detection matches Some(s) && s.consecutive_5xx == od.consecutive_5xx
            && s.interval_ms == spec_s_to_ms(od.interval_seconds) && s.base_ejection_time_ms
            == spec_s_to_ms(od.base_ejection_time_seconds) && s.max_ejection_percent
            == od.max_ejection_percent && s.min_healthy_percent is None,
        None => r.outlier_detection is None,
    })
    &&& r.metadata is None
}

/// How one canonical endpoint projects to the service shape: an address
/// splits into host and port, a text endpoint splits at its last colon with
/// a fallback port of 80, and the weight defaults.
pub open spec fn endpoint_projection_rel(e: EndpointSpec, r: ServiceEndpoint) -> bool {
    &&& (match e {
        EndpointSpec::Address { host, port } => r.host@ == host@ && r.port == port,
        EndpointSpec::Text(s) => (match crate::text::spec_rsplit_colon(s@) {
            Some((h, p)) => r.host@ == h && r.port == (match crate::text::spec_parse_u16(p) {
                Some(v) => v,
                None => 80u16,
            }),
            None => r.host@ == s@ && r.port == 80,
        }),
    })
    &&& r.weight == 100
    &&& r.metadata is None
}

/// Seconds multiplied back to milliseconds, saturating at the integer
/// ceiling.
pub open spec fn spec_s_to_ms(v: Option<u64>) -> Option<u64> {
    match v {
        Some(s) => if s <= 0xffff_ffff_ffff_ffffu64 / 1000 {
            Some((s * 1000) as u64)
        } else {
            Some(0xffff_ffff_ffff_ffffu64)
        },
        None => None,
    }
}

fn s_to_ms(v: Option<u64>) -> (r: Option<u64>)
    ensures
        r == spec_s_to_ms(v),
{
    match v {
        Some(s) => {
            if s <= 0xffff_ffff_ffff_ffffu64 / 1000 {
                Some(s * 1000)
            } else {
                Some(0xffff_ffff_ffff_ffffu64)
            }
        },
        None => None,
    }
}

/// Projects a cluster view to the service shape, for list and get.
pub fn cluster_response_to_service(cluster: ClusterResponse) -> (r: ServiceResponse)
    ensures
        cluster_service_projection_rel(cluster, r),
{
    let mut endpoints: Vec<ServiceEndpoint> = Vec::new();
    let mut i: usize = 0;
    while i < cluster.config.endpoints.len()
        invariant
            i <= cluster.config.endpoints@.len(),
            endpoints@.len() == i,
            forall|j: int|
                0 <= j < i ==> endpoint_projection_rel(
                    cluster.config.endpoints@[j],
                    #[trigger] endpoints@[j],
                ),
        decreases cluster.config.endpoints@.len() - i,
    {
        let ep = &cluster.config.endpoints[i];
        let se: ServiceEndpoint = match ep {
            EndpointSpec::Address { host, port } => ServiceEndpoint {
                host: host.clone(),
                port: *port,
                weight: 100,
                metadata: None,
            },
            EndpointSpec::Text(s) => {
                match crate::text::rsplit_colon(s.as_str()) {
                    Some((h, p)) => ServiceEndpoint {
                        host: h,
                        port: crate::text::parse_u16_or(p.as_str(), 80),
                        weight: 100,
                        metadata: None,
                    },
                    None => ServiceEndpoint {
                        host: s.clone(),
                        port: 80,
                        weight: 100,
                        metadata: None,
                    },
                }
            },
        };
        endpoints.push(se);
        i = i + 1;
    }
    let load_balancing = match &cluster.config.lb_policy {
        Some(p) => string_to_load_balancing(p.as_str()),
        None => LoadBalancingStrategy::RoundRobin,
    };
    let health_check: Option<ServiceHealthCheck> = if cluster.config.health_checks.len() == 0 {
        None
    } else {
        match &cluster.config.health_checks[0] {
            HealthCheckSpec::Http {
                path,
                interval_seconds,
                timeout_seconds,
                healthy_threshold,
                unhealthy_threshold,
                ..
            } => {
                let interval64: u64 = match interval_seconds {
                    Some(v) => *v,
                    None => 10,
                };
                let timeout64: u64 = match timeout_seconds {
                    Some(v) => *v,
                    None => 3,
                };
                #[verifier::truncate]
                let interval32 = interval64 as u32;
                #[verifier::truncate]
                let timeout32 = timeout64 as u32;
                Some(
                    ServiceHealthCheck {
                        path: path.clone(),
                        interval: interval32,
                        timeout: timeout32,
                        healthy_threshold: match healthy_threshold {
                            Some(v) => *v,
                            None => 2,
                        },
                        unhealthy_threshold: match unhealthy_threshold {
                            Some(v) => *v,
                            None => 2,
                        },
                    },
                )
            },
            HealthCheckSpec::Tcp { .. } => None,
        }
    };
    let circuit_breaker: Option<ServiceCircuitBreaker> = match cluster.config.circuit_breakers {
        Some(cb) => match cb.default {
            Some(t) => Some(
                ServiceCircuitBreaker {
                    max_requests: t.max_requests,
                    max_pending_requests: t.max_pending_requests,
                    max_connections: t.max_connections,
                    max_retries: t.max_retries,
                    consecutive_errors: None,
                    interval_ms: None,
                },
            ),
            None => None,
        },
        None => None,
    };
    let outlier_detection: Option<ServiceOutlierDetection> = match cluster.config.outlier_detection {
        Some(od) => Some(
            ServiceOutlierDetection {
                consecutive_5xx: od.consecutive_5xx,
                interval_ms: s_to_ms(od.interval_seconds),
                base_ejection_time_ms: s_to_ms(od.base_ejection_time_seconds),
                max_ejection_percent: od.max_ejection_percent,
                min_healthy_percent: None,
            },
        ),
        None => None,
    };
    let cluster_id = cluster.name.clone();
    ServiceResponse {
        name: cluster.name,
        cluster_id,
        endpoints,
        load_balancing,
        health_check,
        circuit_breaker,
        outlier_detection,
        metadata: None,
    }
}


// === Handlers ===

/// The lowered cluster request of a service is accepted by the cluster
/// surface exactly when the service name fits the resource-name pattern and
/// every endpoint has a usable host and port.
pub open spec fn service_cluster_acceptable(s: ServiceDefinition) -> bool {
    &&& crate::cluster_model::spec_resource_name_valid(s.name@)
    &&& s.endpoints@.len() >= 1
    &&& forall|i: int| 0 <= i < s.endpoints@.len() ==> (#[trigger] s.endpoints@[i]).port >= 1
    &&& forall|i: int|
        0 <= i < s.endpoints@.len() ==> !crate::text::spec_is_blank(
            (#[trigger] s.endpoints@[i]).host@,
        )
}

proof fn lemma_service_cluster_acceptable(s: ServiceDefinition, b: CreateClusterBody)
    requires
        service_cluster_rel(s, b),
    ensures
        crate::cluster_model::cluster_body_valid(b) <==> service_cluster_acceptable(s),
{
    assert forall|i: int| 0 <= i < s.endpoints@.len() implies (#[trigger] s.endpoints@[i]).port
        == b.endpoints@[i].port && s.endpoints@[i].host@ == b.endpoints@[i].host@ by {
        assert(b.endpoints@[i].port == s.endpoints@[i].port);
    }
}

/// Creates a service: validates it, lowers it to a cluster request, creates
/// the cluster through the Native surface (which refreshes the snapshot
/// before success is reported), and answers 201 with the service view.
pub fn create_service(
    repo: &mut Repository<ClusterStored>,
    snapshot: &mut XdsClusterSnapshot,
    id: String,
    service: ServiceDefinition,
) -> (r: Result<(u16, ServiceResponse), ApiError>)
    requires
        old(repo).wf(),
    ensures
        final(repo).wf(),
        !service_definition_valid(service) ==> (r matches Err(e) && e is BadRequest && final(repo).spec_rows() == old(repo).spec_rows()),
        service_definition_valid(service) && !service_cluster_acceptable(service) ==> (
        r matches Err(e) && e is Validation && final(repo).spec_rows() == old(repo).spec_rows()),
        service_definition_valid(service) && service_cluster_acceptable(service) && spec_has_name(
            old(repo).spec_rows(),
            service.name@,
        ) ==> (r matches Err(e) && e is Conflict && final(repo).spec_rows() == old(
            repo,
        ).spec_rows()),
        service_definition_valid(service) && service_cluster_acceptable(service) && !spec_has_name(
            old(repo).spec_rows(),
            service.name@,
        ) && !spec_has_id(old(repo).spec_rows(), id@) ==> ({
            &&& r matches Ok(p)
            &&& p.0 == 201
            &&& final(repo).spec_rows().len() == old(repo).spec_rows().len() + 1
            &&& final(repo).spec_rows().last().name@ == service.name@
            &&& final(repo).spec_rows().last().version == 1
            &&& exists|b: CreateClusterBody|
                service_cluster_rel(service, b) && crate::cluster_model::cluster_body_rel(
                    b,
                    final(repo).spec_rows().last().data.config,
                )
            &&& crate::xds_state::cluster_snapshot_reflects(
                *final(snapshot),
                final(repo).spec_rows(),
            )
            &&& p.1.name@ == service.name@
            &&& p.1.cluster_id@ == service.name@
            &&& p.1.endpoints == service.endpoints
            &&& p.1.load_balancing == service.load_balancing
            &&& p.1.health_check == service.health_check
            &&& p.1.circuit_breaker == service.circuit_breaker
            &&& p.1.outlier_detection == service.outlier_detection
            &&& p.1.metadata == service.metadata
        }),
{
    match validate_service_definition(&service) {
        Ok(_) => {},
        Err(e) => {
            return Err(e);
        },
    }
    let cluster_body = service_to_cluster(&service);
    proof {
        lemma_service_cluster_acceptable(service, cluster_body);
    }
    let ghost body_ghost = cluster_body;
    match create_cluster(repo, snapshot, id, cluster_body) {
        Ok((status, cluster_response)) => {
            let response = cluster_to_service_response(cluster_response, service);
            Ok((status, response))
        },
        Err(e) => Err(e),
    }
}

/// Entry `t` of a service listing restates the `t`-th listed cluster row.
pub open spec fn service_list_entry_ok(
    rows: Seq<crate::repository::Record<ClusterStored>>,
    q: ListRoutesQuery,
    rs: Seq<ServiceResponse>,
    t: int,
) -> bool {
    exists|c: ClusterResponse|
        crate::cluster_handlers::cluster_response_matches_row(
            c,
            rows[crate::repository::latest_seq(rows)[crate::route_handlers::spec_offset(q) + t]],
        ) && cluster_service_projection_rel(c, rs[t])
}

/// Lists the latest version of every stored cluster projected to the
/// service shape.
pub fn list_services(repo: &Repository<ClusterStored>, params: &ListServicesQuery) -> (r: Vec<
    ServiceResponse,
>)
    ensures
        r@.len() == crate::route_handlers::spec_window(
            crate::repository::latest_seq(repo.spec_rows()).len() as int,
            crate::route_handlers::spec_offset(
                ListRoutesQuery { limit: params.limit, offset: params.offset },
            ),
            crate::route_handlers::spec_limit(
                ListRoutesQuery { limit: params.limit, offset: params.offset },
                crate::repository::latest_seq(repo.spec_rows()).len() as int,
            ),
        ),
        forall|t: int|
            0 <= t < r@.len() ==> #[trigger] service_list_entry_ok(
                repo.spec_rows(),
                ListRoutesQuery { limit: params.limit, offset: params.offset },
                r@,
                t,
            ),
{
    let q = ListRoutesQuery { limit: params.limit, offset: params.offset };
    let mut clusters = list_clusters(repo, &q);
    let ghost orig = clusters@;
    let ghost lat = crate::repository::latest_seq(repo.spec_rows());
    let ghost o = crate::route_handlers::spec_offset(q);
    proof {
        crate::repository::lemma_latest_upto_bounds(
            repo.spec_rows(),
            repo.spec_rows().len() as int,
        );
    }
    let mut out: Vec<ServiceResponse> = Vec::new();
    let ghost mut witnesses: Seq<ClusterResponse> = Seq::empty();
    while clusters.len() > 0
        invariant
            out@.len() + clusters@.len() == orig.len(),
            clusters@ =~= orig.subrange(out@.len() as int, orig.len() as int),
            o >= 0,
            orig.len() > 0 ==> o + orig.len() <= lat.len(),
            forall|k: int| 0 <= k < lat.len() ==> 0 <= #[trigger] lat[k] < repo.spec_rows().len(),
            forall|t: int|
                0 <= t < orig.len() ==> crate::cluster_handlers::cluster_response_matches_row(
                    #[trigger] orig[t],
                    repo.spec_rows()[lat[o + t]],
                ),
            witnesses.len() == out@.len(),
            forall|t: int|
                0 <= t < out@.len() ==> crate::cluster_handlers::cluster_response_matches_row(
                    #[trigger] witnesses[t],
                    repo.spec_rows()[lat[o + t]],
                ) && cluster_service_projection_rel(witnesses[t], out@[t]),
        decreases clusters@.len(),
    {
        let ghost t = out@.len() as int;
        let c = clusters.remove(0);
        proof {
            assert(c == orig[t]);
        }
        let ghost c_ghost = c;
        let svc = cluster_response_to_service(c);
        out.push(svc);
        proof {
            witnesses = witnesses.push(c_ghost);
        }
    }
    proof {
        let q2 = ListRoutesQuery { limit: params.limit, offset: params.offset };
        assert(crate::route_handlers::spec_offset(q2) == o);
        assert forall|t: int| 0 <= t < out@.len() implies #[trigger] service_list_entry_ok(
            repo.spec_rows(),
            q2,
            out@,
            t,
        ) by {
            assert(crate::repository::latest_seq(repo.spec_rows())[
                crate::route_handlers::spec_offset(q2) + t] == lat[o + t]);
            assert(crate::cluster_handlers::cluster_response_matches_row(
                witnesses[t],
                repo.spec_rows()[crate::repository::latest_seq(repo.spec_rows())[
                    crate::route_handlers::spec_offset(q2) + t]],
            ) && cluster_service_projection_rel(witnesses[t], out@[t]));
        }
    }
    out
}

/// Returns the named cluster projected to the service shape, or 404.
pub fn get_service(repo: &Repository<ClusterStored>, name: &str) -> (r: Result<
    ServiceResponse,
    ApiError,
>)
    ensures
        spec_has_name(repo.spec_rows(), name@) ==> (r matches Ok(resp) && exists|
            c: ClusterResponse,
            i: int,
        |
            crate::repository::is_latest(repo.spec_rows(), i) && repo.spec_rows()[i].name@
                == name@ && #[trigger] crate::cluster_handlers::cluster_response_matches_row(
                c,
                repo.spec_rows()[i],
            ) && #[trigger] cluster_service_projection_rel(c, resp)),
        !spec_has_name(repo.spec_rows(), name@) ==> (r matches Err(e) && e is NotFound),
{
    match get_cluster(repo, name) {
        Ok(cluster) => {
            let ghost c_ghost = cluster;
            let svc = cluster_response_to_service(cluster);
            Ok(svc)
        },
        Err(e) => Err(e),
    }
}

/// Updates the named service: validates it, demands the path and payload
/// names agree, lowers it, and replaces the cluster through the Native
/// surface, which writes the next version and refreshes the snapshot.
pub fn update_service(
    repo: &mut Repository<ClusterStored>,
    snapshot: &mut XdsClusterSnapshot,
    name: &str,
    new_id: String,
    service: ServiceDefinition,
) -> (r: Result<ServiceResponse, ApiError>)
    requires
        old(repo).wf(),
        old(repo).spec_rows().len() < 0xffff_ffff_ffff_ffff,
    ensures
        final(repo).wf(),
        !service_definition_valid(service) ==> (r matches Err(e) && e is BadRequest && final(repo).spec_rows() == old(repo).spec_rows()),
        service_definition_valid(service) && service.name@ != name@ ==> (r matches Err(e) && e
            is BadRequest && final(repo).spec_rows() == old(repo).spec_rows()),
        service_definition_valid(service) && service.name@ == name@ && service_cluster_acceptable(
            service,
        ) && spec_has_name(old(repo).spec_rows(), name@) && !spec_has_id(
            old(repo).spec_rows(),
            new_id@,
        ) ==> ({
            &&& r matches Ok(resp)
            &&& final(repo).spec_rows().len() == old(repo).spec_rows().len() + 1
            &&& final(repo).spec_rows().last().name@ == name@
            &&& exists|b: CreateClusterBody|
                service_cluster_rel(service, b) && crate::cluster_model::cluster_body_rel(
                    b,
                    final(repo).spec_rows().last().data.config,
                )
            &&& crate::xds_state::cluster_snapshot_reflects(
                *final(snapshot),
                final(repo).spec_rows(),
            )
            &&& resp.name@ == name@
            &&& resp.endpoints == service.endpoints
        }),
{
    match validate_service_definition(&service) {
        Ok(_) => {},
        Err(e) => {
            return Err(e);
        },
    }
    if !crate::text::str_eq(service.name.as_str(), name) {
        return Err(
            ApiError::BadRequest(String::from_str("service name does not match the path name")),
        );
    }
    let cluster_body = service_to_cluster(&service);
    proof {
        lemma_service_cluster_acceptable(service, cluster_body);
    }
    match update_cluster(repo, snapshot, name, new_id, cluster_body) {
        Ok(cluster_response) => {
            let response = cluster_to_service_response(cluster_response, service);
            Ok(response)
        },
        Err(e) => Err(e),
    }
}

/// Deletes the named service by deleting its cluster; 204 on success.
pub fn delete_service(
    repo: &mut Repository<ClusterStored>,
    snapshot: &mut XdsClusterSnapshot,
    name: &str,
) -> (r: Result<u16, ApiError>)
    requires
        old(repo).wf(),
    ensures
        final(repo).wf(),
        !spec_has_name(old(repo).spec_rows(), name@) ==> (r matches Err(e) && e is NotFound
            && final(repo).spec_rows() == old(repo).spec_rows()),
        spec_has_name(old(repo).spec_rows(), name@) ==> ({
            &&& r matches Ok(code)
            &&& code == 204
            &&& !spec_has_name(final(repo).spec_rows(), name@)
            &&& crate::xds_state::cluster_snapshot_reflects(
                *final(snapshot),
                final(repo).spec_rows(),
            )
        }),
{
    delete_cluster(repo, snapshot, name)
}

} // verus!