//! Transformers between the Native and Platform views: projecting clusters
//! to services, rebuilding cluster views from services, summarising route
//! configurations, lowering policies to proxy filter configurations, and the
//! naming conventions that tie Platform resources to their Native artifacts.

use vstd::prelude::*;

use std::collections::hash_map::DefaultHasher;
use std::hash::{Hash, Hasher};

use crate::cluster_model::{
    CircuitBreakerThresholdsSpec, ClusterResponse, ClusterSpec, EndpointSpec, HealthCheckSpec,
    OutlierDetectionSpec,
};
use crate::json::{JsonField, JsonVal};
use crate::platform_api_definitions::ApiPolicies;
use crate::platform_service_handlers::{
    endpoint_projection_rel, spec_lb_string, spec_s_to_ms, LoadBalancingStrategy,
    ServiceCircuitBreaker, ServiceDefinition, ServiceEndpoint, ServiceHealthCheck,
    ServiceOutlierDetection, ServiceResponse,
};
use crate::text::{
    contains_sub, ends_with, spec_contains, spec_dec, spec_ends_with, spec_join,
};
use crate::xds_route::{RouteConfig, VirtualHostConfig};

verus! {

// === Trusted seams ===

/// A character of a hyphenated identifier: a lower-case hex digit or a
/// hyphen.
pub open spec fn is_uuid_char(c: char) -> bool {
    ('0' <= c <= '9') || ('a' <= c <= 'f') || c == '-'
}

/// Relies on `uuid::Uuid::new_v4` and its hyphenated rendering: a freshly
/// drawn random identifier, 36 characters of lower-case hex digits and
/// hyphens.  Nothing else is assumed of the value.
#[verifier::external_body]
pub fn new_uuid() -> (r: String)
    ensures
        r@.len() == 36,
        forall|i: int| 0 <= i < r@.len() ==> is_uuid_char(#[trigger] r@[i]),
{
    uuid::Uuid::new_v4().to_string()
}

/// Relies on chrono's `Utc::now().to_rfc3339()`: the current wall-clock time
/// rendered as RFC 3339 text.  The value depends on the clock, so nothing is
/// assumed of it.
#[verifier::external_body]
pub fn now_rfc3339() -> String {
    chrono::Utc::now().to_rfc3339()
}

/// Relies on std's `DefaultHasher` over the name: a 64-bit hash.  The hash
/// function is unspecified across releases and machines, so nothing is
/// assumed of the value.
#[verifier::external_body]
fn name_hash64(name: &str) -> u64 {
    let mut hasher = DefaultHasher::new();
    name.hash(&mut hasher);
    hasher.finish()
}

/// Derives a short stable-in-process identifier from a name: the hash
/// reduced below one million and rendered in hexadecimal, so one to five
/// digits.
pub fn generate_id_from_name(name: &str) -> (r: String)
    ensures
        1 <= r@.len() <= 5,
{
    let h = name_hash64(name);
    let v = h % 1000000;
    let r = crate::text::hex_string_of(v);
    proof {
        reveal_with_fuel(crate::text::pow16, 6);
        assert(crate::text::pow16(5) == 1048576);
        crate::text::lemma_spec_hex_len(v as nat, 5);
    }
    r
}

// === Naming conventions ===

/// A cluster is Platform-originated when its name ends in `-cluster` or
/// mentions `-service`.
pub fn is_platform_service_cluster(cluster_name: &str) -> (r: bool)
    ensures
        r == (spec_ends_with(cluster_name@, "-cluster"@) || spec_contains(
            cluster_name@,
            "-service"@,
        )),
{
    ends_with(cluster_name, "-cluster") || contains_sub(cluster_name, "-service")
}

/// The service name behind a cluster name: every trailing `-cluster` suffix
/// stripped.
pub open spec fn spec_strip_cluster_suffix(s: Seq<char>) -> Seq<char>
    decreases s.len(),
{
    if s.len() >= 8 && spec_ends_with(s, "-cluster"@) {
        spec_strip_cluster_suffix(s.take(s.len() - 8))
    } else {
        s
    }
}

/// Recovers the service name from a cluster name.
pub fn cluster_name_to_service_name(cluster_name: &str) -> (r: String)
    ensures
        r@ == spec_strip_cluster_suffix(cluster_name@),
{
    proof {
        reveal_strlit("-cluster");
    }
    let mut current = String::from_str(cluster_name);
    while ends_with(current.as_str(), "-cluster")
        invariant
            spec_strip_cluster_suffix(current@) == spec_strip_cluster_suffix(cluster_name@),
        decreases current@.len(),
    {
        proof {
            reveal_strlit("-cluster");
        }
        let n = current.unicode_len();
        let next = String::from_str(current.as_str().substring_char(0, n - 8));
        proof {
            assert(next@ =~= current@.take(current@.len() - 8));
        }
        current = next;
    }
    current
}

/// A route configuration is Platform-originated when its name ends in
/// `-routes` or mentions `-api-`.
pub fn is_platform_api_routes(route_name: &str) -> (r: bool)
    ensures
        r == (spec_ends_with(route_name@, "-routes"@) || spec_contains(route_name@, "-api-"@)),
{
    ends_with(route_name, "-routes") || contains_sub(route_name, "-api-")
}

// === Projecting a bare cluster to the service shape ===

/// What the projection of a bare cluster configuration to a service looks
/// like: every endpoint reshaped with the default weight, the policy string
/// mapped back to its strategy (unknown names fall back to round robin), the
/// first health check flattened with stored thresholds defaulting to 2, the
/// default (or high) circuit-breaker thresholds with fixed error counts, and
/// outlier times in milliseconds.
pub open spec fn native_cluster_service_rel(c: ClusterSpec, r: ServiceResponse) -> bool {
    &&& r.name@ == "cluster"@
    &&& spec_ends_with(r.cluster_id@, "-cluster"@)
    &&& r.endpoints@.len() == c.endpoints@.len()
    &&& forall|i: int|
        0 <= i < r.endpoints@.len() ==> endpoint_projection_rel(
            c.endpoints@[i],
            #[trigger] r.endpoints@[i],
        )
    &&& r.load_balancing == (match c.lb_policy {
        Some(p) => crate::platform_service_handlers::spec_string_lb(p@),
        None => LoadBalancingStrategy::RoundRobin,
    })
    &&& (if c.health_checks@.len() == 0 {
        r.health_check is None
    } else {
        match c.health_checks@[0] {
            HealthCheckSpec::Http {
                path,
                interval_seconds,
                timeout_seconds,
                healthy_threshold,
                unhealthy_threshold,
                ..
            } => {
                r.health_check matches Some(hc) && hc.path@ == path@ && hc.interval == ((
                match interval_seconds {
                    Some(v) => v,
                    None => 10u64,
                }) as u32) && hc.timeout == ((match timeout_seconds {
                    Some(v) => v,
                    None => 5u64,
                }) as u32) && hc.healthy_threshold == (match healthy_threshold {
                    Some(v) => v,
                    None => 2u32,
                }) && hc.unhealthy_threshold == (match unhealthy_threshold {
                    Some(v) => v,
                    None => 2u32,
                })
            },
            HealthCheckSpec::Tcp { interval_seconds, timeout_seconds } => {
                r.health_check matches Some(hc) && hc.path@ == "/"@ && hc.interval == ((
                match interval_seconds {
                    Some(v) => v,
                    None => 10u64,
                }) as u32) && hc.timeout == ((match timeout_seconds {
                    Some(v) => v,
                    None => 5u64,
                }) as u32) && hc.healthy_threshold == 2 && hc.unhealthy_threshold == 2
            },
        }
    })
    &&& (match c.circuit_breakers {
        Some(cb) => match spec_default_or_high(cb.default, cb.high) {
            Some(t) => r.circuit_breaker matches Some(s) && s.max_requests == t.max_requests
                && s.max_pending_requests == t.max_pending_requests && s.max_connections
                == t.max_connections && s.max_retries == t.max_retries && s.consecutive_errors
                == Some(5u32) && s.interval_ms == Some(10000u64),
            None => r.circuit_breaker is None,
        },
        None => r.circuit_breaker is None,
    })
    &&& (match c.outlier_detection {
        Some(od) => r.outlier_detection matches Some(s) && s.consecutive_5xx == od.consecutive_5xx
            && s.interval_ms == spec_s_to_ms(od.interval_seconds) && s.base_ejection_time_ms
            == spec_s_to_ms(od.base_ejection_time_seconds) && s.max_ejection_percent
            == od.max_ejection_percent && s.min_healthy_percent is None,
        None => r.outlier_detection is None,
    })
    &&& (r.metadata matches Some(m) && m matches JsonVal::Obj(fs) && fs@.len() == 2
        && fs@[0].key@ == "source"@ && (fs@[0].val matches JsonVal::Str(s) && s@ == "native_api"@)
        && fs@[1].key@ == "cluster_name"@ && (fs@[1].val matches JsonVal::Str(s) && s@ == (
    match c.lb_policy {
        Some(p) => p@,
        None => "unknown"@,
    })))
}

pub open spec fn spec_default_or_high(
    d: Option<CircuitBreakerThresholdsSpec>,
    h: Option<CircuitBreakerThresholdsSpec>,
) -> Option<CircuitBreakerThresholdsSpec> {
    match d {
        Some(t) => Some(t),
        None => h,
    }
}

/// Projects a bare cluster configuration to the Platform service shape.
pub fn cluster_to_service(cluster: &ClusterSpec) -> (r: ServiceResponse)
    ensures
        native_cluster_service_rel(*cluster, r),
{
    let mut endpoints: Vec<ServiceEndpoint> = Vec::new();
    let mut i: usize = 0;
    while i < cluster.endpoints.len()
        invariant
            i <= cluster.endpoints@.len(),
            endpoints@.len() == i,
            forall|j: int|
                0 <= j < i ==> endpoint_projection_rel(
                    cluster.endpoints@[j],
                    #[trigger] endpoints@[j],
                ),
        decreases cluster.endpoints@.len() - i,
    {
        let ep = &cluster.endpoints[i];
        let se: ServiceEndpoint = match ep {
            EndpointSpec::Address { host, port } => ServiceEndpoint {
                host: host.clone(),
                port: *port,
                weight: 100,
                metadata: None,
            },
            EndpointSpec::Text(s) => {
                match crate::text::rsplit_colon(s.as_str()) {
                    Some((h, p)) => ServiceEndpoint {
                        host: h,
                        port: crate::text::parse_u16_or(p.as_str(), 80),
                        weight: 100,
                        metadata: None,
                    },
                    None => ServiceEndpoint {
                        host: s.clone(),
                        port: 80,
                        weight: 100,
                        metadata: None,
                    },
                }
            },
        };
        endpoints.push(se);
        i = i + 1;
    }
    let load_balancing = match &cluster.lb_policy {
        Some(p) => crate::platform_service_handlers::string_to_load_balancing(p.as_str()),
        None => LoadBalancingStrategy::RoundRobin,
    };
    let health_check: Option<ServiceHealthCheck> = if cluster.health_checks.len() == 0 {
        None
    } else {
        match &cluster.health_checks[0] {
            HealthCheckSpec::Http {
                path,
                interval_seconds,
                timeout_seconds,
                healthy_threshold,
                unhealthy_threshold,
                ..
            } => {
                let interval64: u64 = match interval_seconds {
                    Some(v) => *v,
                    None => 10,
                };
                let timeout64: u64 = match timeout_seconds {
                    Some(v) => *v,
                    None => 5,
                };
                #[verifier::truncate]
                let interval32 = interval64 as u32;
                #[verifier::truncate]
                let timeout32 = timeout64 as u32;
                Some(
                    ServiceHealthCheck {
                        path: path.clone(),
                        interval: interval32,
                        timeout: timeout32,
                        healthy_threshold: match healthy_threshold {
                            Some(v) => *v,
                            None => 2,
                        },
                        unhealthy_threshold: match unhealthy_threshold {
                            Some(v) => *v,
                            None => 2,
                        },
                    },
                )
            },
            HealthCheckSpec::Tcp { interval_seconds, timeout_seconds } => {
                let interval64: u64 = match interval_seconds {
                    Some(v) => *v,
                    None => 10,
                };
                let timeout64: u64 = match timeout_seconds {
                    Some(v) => *v,
                    None => 5,
                };
                #[verifier::truncate]
                let interval32 = interval64 as u32;
                #[verifier::truncate]
                let timeout32 = timeout64 as u32;
                Some(
                    ServiceHealthCheck {
                        path: String::from_str("/"),
                        interval: interval32,
                        timeout: timeout32,
                        healthy_threshold: 2,
                        unhealthy_threshold: 2,
                    },
                )
            },
        }
    };
    let circuit_breaker: Option<ServiceCircuitBreaker> = match cluster.circuit_breakers {
        Some(cb) => {
            let picked = match cb.default {
                Some(t) => Some(t),
                None => cb.high,
            };
            match picked {
                Some(t) => Some(
                    ServiceCircuitBreaker {
                        max_requests: t.max_requests,
                        max_pending_requests: t.max_pending_requests,
                        max_connections: t.max_connections,
                        max_retries: t.max_retries,
                        consecutive_errors: Some(5),
                        interval_ms: Some(10000),
                    },
                ),
                None => None,
            }
        },
        None => None,
    };
    let outlier_detection: Option<ServiceOutlierDetection> = match cluster.outlier_detection {
        Some(od) => Some(
            ServiceOutlierDetection {
                consecutive_5xx: od.consecutive_5xx,
                interval_ms: s_to_ms_pub(od.interval_seconds),
                base_ejection_time_ms: s_to_ms_pub(od.base_ejection_time_seconds),
                max_ejection_percent: od.max_ejection_percent,
                min_healthy_percent: None,
            },
        ),
        None => None,
    };
    let lb_name: String = match &cluster.lb_policy {
        Some(p) => p.clone(),
        None => String::from_str("unknown"),
    };
    let cluster_id = generate_id_from_name(lb_name.as_str()).concat("-cluster");
    proof {
        reveal_strlit("-cluster");
        assert(cluster_id@.subrange(cluster_id@.len() - 8, cluster_id@.len() as int)
            =~= "-cluster"@);
    }
    let mut meta_fields: Vec<JsonField> = Vec::new();
    meta_fields.push(
        JsonField { key: String::from_str("source"), val: JsonVal::Str(
            String::from_str("native_api"),
        ) },
    );
    meta_fields.push(
        JsonField { key: String::from_str("cluster_name"), val: JsonVal::Str(lb_name) },
    );
    ServiceResponse {
        name: String::from_str("cluster"),
        cluster_id,
        endpoints,
        load_balancing,
        health_check,
        circuit_breaker,
        outlier_detection,
        metadata: Some(JsonVal::Obj(meta_fields)),
    }
}

fn s_to_ms_pub(v: Option<u64>) -> (r: Option<u64>)
    ensures
        r == spec_s_to_ms(v),
{
    match v {
        Some(s) => {
            if s <= 0xffff_ffff_ffff_ffffu64 / 1000 {
                Some(s * 1000)
            } else {
                Some(0xffff_ffff_ffff_ffffu64)
            }
        },
        None => None,
    }
}

/// Projects every cluster of a list to the service shape.
pub fn clusters_to_services(clusters: Vec<ClusterSpec>) -> (r: Vec<ServiceResponse>)
    ensures
        r@.len() == clusters@.len(),
        forall|i: int|
            0 <= i < r@.len() ==> native_cluster_service_rel(clusters@[i], #[trigger] r@[i]),
{
    let mut out: Vec<ServiceResponse> = Vec::new();
    let mut i: usize = 0;
    while i < clusters.len()
        invariant
            i <= clusters@.len(),
            out@.len() == i,
            forall|j: int|
                0 <= j < i ==> native_cluster_service_rel(clusters@[j], #[trigger] out@[j]),
        decreases clusters@.len() - i,
    {
        out.push(cluster_to_service(&clusters[i]));
        i = i + 1;
    }
    out
}

// === Rebuilding a cluster view from a service definition ===

/// What the cluster view of a service definition looks like: endpoints as
/// addresses, the strategy rendered, a single HTTP health check when one is
/// configured, default thresholds in a `default` block, outlier times
/// floored back to seconds, and fixed defaults for the connection settings.
pub open spec fn service_cluster_response_rel(
    s: ServiceDefinition,
    name: Seq<char>,
    r: ClusterResponse,
) -> bool {
    &&& r.name@ == name
    &&& r.service_name@ == s.name@
    &&& r.config.endpoints@.len() == s.endpoints@.len()
    &&& forall|i: int|
        0 <= i < r.config.endpoints@.len() ==> ((#[trigger] r.config.endpoints@[i]) matches EndpointSpec::Address {
            host,
            port,
        } && host@ == s.endpoints@[i].host@ && port == s.endpoints@[i].port)
    &&& (r.config.lb_policy matches Some(p) && p@ == spec_lb_string(s.load_balancing))
    &&& (match s.health_check {
        Some(hc) => r.config.health_checks@.len() == 1 && (
        r.config.health_checks@[0] matches HealthCheckSpec::Http {
            path,
            host,
            method,
            interval_seconds,
            timeout_seconds,
            healthy_threshold,
            unhealthy_threshold,
            expected_statuses,
        } && path@ == hc.path@ && host is None && method is None && interval_seconds == Some(
            hc.interval as u64,
        ) && timeout_seconds == Some(hc.timeout as u64) && healthy_threshold == Some(
            hc.healthy_threshold,
        ) && unhealthy_threshold == Some(hc.unhealthy_threshold) && expected_statuses is None),
        None => r.config.health_checks@.len() == 0,
    })
    &&& (match s.circuit_breaker {
        Some(cb) => r.config.circuit_breakers matches Some(b) && (b.default matches Some(t)
            && t.max_connections == cb.max_connections && t.max_pending_requests
            == cb.max_pending_requests && t.max_requests == cb.max_requests && t.max_retries
            == cb.max_retries) && b.high is None,
        None => r.config.circuit_breakers is None,
    })
    &&& (match s.outlier_detection {
        Some(od) => r.config.outlier_detection matches Some(o) && o.consecutive_5xx
            == od.consecutive_5xx && o.interval_seconds
            == crate::platform_service_handlers::spec_ms_to_s(od.interval_ms)
            && o.base_ejection_time_seconds == crate::platform_service_handlers::spec_ms_to_s(
            od.base_ejection_time_ms,
        ) && o.max_ejection_percent == od.max_ejection_percent,
        None => r.config.outlier_detection is None,
    })
    &&& r.config.connect_timeout_seconds == Some(5u64)
    &&& r.config.use_tls == Some(false)
    &&& r.config.tls_server_name is None
    &&& r.config.dns_lookup_family is None
}

/// Rebuilds the Native cluster view a service definition corresponds to.
pub fn service_to_cluster_response(service: &ServiceDefinition, cluster_name: &str) -> (r:
    ClusterResponse)
    ensures
        service_cluster_response_rel(*service, cluster_name@, r),
{
    let mut endpoints: Vec<EndpointSpec> = Vec::new();
    let mut i: usize = 0;
    while i < service.endpoints.len()
        invariant
            i <= service.endpoints@.len(),
            endpoints@.len() == i,
            forall|j: int|
                0 <= j < i ==> ((#[trigger] endpoints@[j]) matches EndpointSpec::Address {
                    host,
                    port,
                } && host@ == service.endpoints@[j].host@ && port == service.endpoints@[j].port),
        decreases service.endpoints@.len() - i,
    {
        endpoints.push(
            EndpointSpec::Address {
                host: service.endpoints[i].host.clone(),
                port: service.endpoints[i].port,
            },
        );
        i = i + 1;
    }
    let health_checks: Vec<HealthCheckSpec> = match &service.health_check {
        Some(hc) => {
            let mut v: Vec<HealthCheckSpec> = Vec::new();
            v.push(
                HealthCheckSpec::Http {
                    path: hc.path.clone(),
                    host: None,
                    method: None,
                    interval_seconds: Some(hc.interval as u64),
                    timeout_seconds: Some(hc.timeout as u64),
                    healthy_threshold: Some(hc.healthy_threshold),
                    unhealthy_threshold: Some(hc.unhealthy_threshold),
                    expected_statuses: None,
                },
            );
            v
        },
        None => Vec::new(),
    };
    let circuit_breakers = match service.circuit_breaker {
        Some(cb) => Some(
            crate::cluster_model::CircuitBreakersSpec {
                default: Some(
                    CircuitBreakerThresholdsSpec {
                        max_connections: cb.max_connections,
                        max_pending_requests: cb.max_pending_requests,
                        max_requests: cb.max_requests,
                        max_retries: cb.max_retries,
                    },
                ),
                high: None,
            },
        ),
        None => None,
    };
    let outlier_detection = match service.outlier_detection {
        Some(od) => Some(
            OutlierDetectionSpec {
                consecutive_5xx: od.consecutive_5xx,
                interval_seconds: match od.interval_ms {
                    Some(ms) => Some(ms / 1000),
                    None => None,
                },
                base_ejection_time_seconds: match od.base_ejection_time_ms {
                    Some(ms) => Some(ms / 1000),
                    None => None,
                },
                max_ejection_percent: od.max_ejection_percent,
            },
        ),
        None => None,
    };
    let config = ClusterSpec {
        connect_timeout_seconds: Some(5),
        endpoints,
        use_tls: Some(false),
        tls_server_name: None,
        dns_lookup_family: None,
        lb_policy: Some(
            crate::platform_service_handlers::load_balancing_to_string(&service.load_balancing),
        ),
        circuit_breakers,
        health_checks,
        outlier_detection,
    };
    ClusterResponse {
        name: String::from_str(cluster_name),
        service_name: service.name.clone(),
        config,
    }
}

// === Rendering canonical route rules as structured values ===

pub open spec fn json_opt_str(v: JsonVal, o: Option<String>) -> bool {
    match o {
        Some(x) => v matches JsonVal::Str(t) && t@ == x@,
        None => v is Null,
    }
}

pub open spec fn json_opt_u64(v: JsonVal, o: Option<u64>) -> bool {
    match o {
        Some(u) => v == JsonVal::UInt(u),
        None => v is Null,
    }
}

pub open spec fn json_opt_u32(v: JsonVal, o: Option<u32>) -> bool {
    match o {
        Some(u) => v == JsonVal::UInt(u as u64),
        None => v is Null,
    }
}

pub open spec fn json_opt_bool(v: JsonVal, o: Option<bool>) -> bool {
    match o {
        Some(b) => v == JsonVal::Bool(b),
        None => v is Null,
    }
}

pub open spec fn path_json_rel(p: crate::route_model::PathMatchDefinition, v: JsonVal) -> bool {
    match p {
        crate::route_model::PathMatchDefinition::Exact { value } => v matches JsonVal::Obj(fs)
            && fs@.len() == 2 && fs@[0].key@ == "type"@ && (fs@[0].val matches JsonVal::Str(t)
            && t@ == "exact"@) && fs@[1].key@ == "value"@ && (fs@[1].val matches JsonVal::Str(x)
            && x@ == value@),
        crate::route_model::PathMatchDefinition::Prefix { value } => v matches JsonVal::Obj(fs)
            && fs@.len() == 2 && fs@[0].key@ == "type"@ && (fs@[0].val matches JsonVal::Str(t)
            && t@ == "prefix"@) && fs@[1].key@ == "value"@ && (fs@[1].val matches JsonVal::Str(x)
            && x@ == value@),
        crate::route_model::PathMatchDefinition::Regex { value } => v matches JsonVal::Obj(fs)
            && fs@.len() == 2 && fs@[0].key@ == "type"@ && (fs@[0].val matches JsonVal::Str(t)
            && t@ == "regex"@) && fs@[1].key@ == "value"@ && (fs@[1].val matches JsonVal::Str(x)
            && x@ == value@),
        crate::route_model::PathMatchDefinition::Template { template } => v matches JsonVal::Obj(
            fs,
        ) && fs@.len() == 2 && fs@[0].key@ == "type"@ && (fs@[0].val matches JsonVal::Str(t) && t@
            == "template"@) && fs@[1].key@ == "template"@ && (fs@[1].val matches JsonVal::Str(x)
            && x@ == template@),
    }
}

pub open spec fn header_json_rel(h: crate::route_model::HeaderMatchDefinition, v: JsonVal) -> bool {
    v matches JsonVal::Obj(fs) && fs@.len() == 4 && fs@[0].key@ == "name"@ && (
    fs@[0].val matches JsonVal::Str(n) && n@ == h.name@) && fs@[1].key@ == "value"@
        && json_opt_str(fs@[1].val, h.value) && fs@[2].key@ == "regex"@ && json_opt_str(
        fs@[2].val,
        h.regex,
    ) && fs@[3].key@ == "present"@ && json_opt_bool(fs@[3].val, h.present)
}

pub open spec fn query_json_rel(
    q: crate::route_model::QueryParameterMatchDefinition,
    v: JsonVal,
) -> bool {
    v matches JsonVal::Obj(fs) && fs@.len() == 4 && fs@[0].key@ == "name"@ && (
    fs@[0].val matches JsonVal::Str(n) && n@ == q.name@) && fs@[1].key@ == "value"@
        && json_opt_str(fs@[1].val, q.value) && fs@[2].key@ == "regex"@ && json_opt_str(
        fs@[2].val,
        q.regex,
    ) && fs@[3].key@ == "present"@ && json_opt_bool(fs@[3].val, q.present)
}

pub open spec fn filter_cfg_json_rel(
    c: crate::scoped_config::ScopedFilterConfig,
    v: JsonVal,
) -> bool {
    match c {
        crate::scoped_config::ScopedFilterConfig::LocalRateLimit {
            stat_prefix,
            max_tokens,
            tokens_per_fill,
            fill_interval_ms,
            status_code,
        } => v matches JsonVal::Obj(fs) && fs@.len() == 5 && fs@[0].key@ == "statPrefix"@ && (
        fs@[0].val matches JsonVal::Str(p) && p@ == stat_prefix@) && fs@[1].key@ == "maxTokens"@
            && fs@[1].val == JsonVal::UInt(max_tokens as u64) && fs@[2].key@ == "tokensPerFill"@
            && json_opt_u32(fs@[2].val, tokens_per_fill) && fs@[3].key@ == "fillIntervalMs"@
            && fs@[3].val == JsonVal::UInt(fill_interval_ms) && fs@[4].key@ == "statusCode"@
            && json_opt_u32(fs@[4].val, status_code),
        crate::scoped_config::ScopedFilterConfig::Other { value } => crate::json::json_equiv(
            v,
            value,
        ),
    }
}

pub open spec fn filters_json_rel(
    entries: Seq<crate::scoped_config::ScopedFilterEntry>,
    v: JsonVal,
) -> bool {
    v matches JsonVal::Obj(fs) && fs@.len() == entries.len() && forall|i: int|
        0 <= i < entries.len() ==> (#[trigger] fs@[i]).key@ == entries[i].filter@
            && filter_cfg_json_rel(entries[i].config, fs@[i].val)
}

pub open spec fn weighted_json_rel(
    w: crate::route_model::WeightedClusterDefinition,
    v: JsonVal,
) -> bool {
    v matches JsonVal::Obj(fs) && fs@.len() == 3 && fs@[0].key@ == "name"@ && (
    fs@[0].val matches JsonVal::Str(n) && n@ == w.name@) && fs@[1].key@ == "weight"@
        && fs@[1].val == JsonVal::UInt(w.weight as u64) && fs@[2].key@ == "typedPerFilterConfig"@
        && filters_json_rel(w.typed_per_filter_config@, fs@[2].val)
}

pub open spec fn action_json_rel(a: crate::xds_route::RouteActionConfig, v: JsonVal) -> bool {
    match a {
        crate::xds_route::RouteActionConfig::Cluster {
            name,
            timeout,
            prefix_rewrite,
            path_template_rewrite,
        } => v matches JsonVal::Obj(fs) && fs@.len() == 5 && fs@[0].key@ == "type"@ && (
        fs@[0].val matches JsonVal::Str(t) && t@ == "forward"@) && fs@[1].key@ == "cluster"@ && (
        fs@[1].val matches JsonVal::Str(n) && n@ == name@) && fs@[2].key@ == "timeoutSeconds"@
            && json_opt_u64(fs@[2].val, timeout) && fs@[3].key@ == "prefixRewrite"@
            && json_opt_str(fs@[3].val, prefix_rewrite) && fs@[4].key@ == "templateRewrite"@
            && json_opt_str(fs@[4].val, path_template_rewrite),
        crate::xds_route::RouteActionConfig::WeightedClusters { clusters, total_weight } => (
        v matches JsonVal::Obj(fs) && fs@.len() == 3 && fs@[0].key@ == "type"@ && (
        fs@[0].val matches JsonVal::Str(t) && t@ == "weighted"@) && fs@[1].key@ == "clusters"@
            && (fs@[1].val matches JsonVal::Arr(cs) && cs@.len() == clusters@.len() && (forall|
            i: int,
        |
            0 <= i < clusters@.len() ==> weighted_json_rel(clusters@[i], #[trigger] cs@[i])))
            && fs@[2].key@ == "totalWeight"@ && json_opt_u32(fs@[2].val, total_weight)),
        crate::xds_route::RouteActionConfig::Redirect {
            host_redirect,
            path_redirect,
            response_code,
        } => v matches JsonVal::Obj(fs) && fs@.len() == 4 && fs@[0].key@ == "type"@ && (
        fs@[0].val matches JsonVal::Str(t) && t@ == "redirect"@) && fs@[1].key@
            == "hostRedirect"@ && json_opt_str(fs@[1].val, host_redirect) && fs@[2].key@
            == "pathRedirect"@ && json_opt_str(fs@[2].val, path_redirect) && fs@[3].key@
            == "responseCode"@ && json_opt_u32(fs@[3].val, response_code),
    }
}

pub open spec fn match_json_rel(m: crate::xds_route::RouteMatchConfig, v: JsonVal) -> bool {
    v matches JsonVal::Obj(fs) && fs@.len() == 3 && fs@[0].key@ == "path"@ && path_json_rel(
        m.path,
        fs@[0].val,
    ) && fs@[1].key@ == "headers"@ && (match m.headers {
        Some(hs) => fs@[1].val matches JsonVal::Arr(a) && a@.len() == hs@.len() && (forall|i: int|
            0 <= i < hs@.len() ==> header_json_rel(hs@[i], #[trigger] a@[i])),
        None => fs@[1].val is Null,
    }) && fs@[2].key@ == "queryParameters"@ && (match m.query_parameters {
        Some(qs) => fs@[2].val matches JsonVal::Arr(a) && a@.len() == qs@.len() && (forall|i: int|
            0 <= i < qs@.len() ==> query_json_rel(qs@[i], #[trigger] a@[i])),
        None => fs@[2].val is Null,
    })
}

/// What one rendered route rule says, field by field.
pub open spec fn rule_json_rel(r: crate::xds_route::RouteRule, v: JsonVal) -> bool {
    v matches JsonVal::Obj(fs) && fs@.len() == 4 && fs@[0].key@ == "name"@ && json_opt_str(
        fs@[0].val,
        r.name,
    ) && fs@[1].key@ == "match"@ && match_json_rel(r.route_match, fs@[1].val) && fs@[2].key@
        == "action"@ && action_json_rel(r.action, fs@[2].val) && fs@[3].key@
        == "typedPerFilterConfig"@ && filters_json_rel(r.typed_per_filter_config@, fs@[3].val)
}

fn render_opt_str(o: &Option<String>) -> (r: JsonVal)
    ensures
        json_opt_str(r, *o),
{
    match o {
        Some(s) => JsonVal::Str(s.clone()),
        None => JsonVal::Null,
    }
}

fn render_opt_u64(o: Option<u64>) -> (r: JsonVal)
    ensures
        json_opt_u64(r, o),
{
    match o {
        Some(u) => JsonVal::UInt(u),
        None => JsonVal::Null,
    }
}

fn render_opt_u32(o: Option<u32>) -> (r: JsonVal)
    ensures
        json_opt_u32(r, o),
{
    match o {
        Some(u) => JsonVal::UInt(u as u64),
        None => JsonVal::Null,
    }
}

fn render_opt_bool(o: Option<bool>) -> (r: JsonVal)
    ensures
        json_opt_bool(r, o),
{
    match o {
        Some(b) => JsonVal::Bool(b),
        None => JsonVal::Null,
    }
}

fn render_path(p: &crate::route_model::PathMatchDefinition) -> (r: JsonVal)
    ensures
        path_json_rel(*p, r),
{
    let mut fs: Vec<JsonField> = Vec::new();
    match p {
        crate::route_model::PathMatchDefinition::Exact { value } => {
            fs.push(JsonField { key: String::from_str("type"), val: JsonVal::Str(
                String::from_str("exact"),
            ) });
            fs.push(JsonField { key: String::from_str("value"), val: JsonVal::Str(
                value.clone(),
            ) });
        },
        crate::route_model::PathMatchDefinition::Prefix { value } => {
            fs.push(JsonField { key: String::from_str("type"), val: JsonVal::Str(
                String::from_str("prefix"),
            ) });
            fs.push(JsonField { key: String::from_str("value"), val: JsonVal::Str(
                value.clone(),
            ) });
        },
        crate::route_model::PathMatchDefinition::Regex { value } => {
            fs.push(JsonField { key: String::from_str("type"), val: JsonVal::Str(
                String::from_str("regex"),
            ) });
            fs.push(JsonField { key: String::from_str("value"), val: JsonVal::Str(
                value.clone(),
            ) });
        },
        crate::route_model::PathMatchDefinition::Template { template } => {
            fs.push(JsonField { key: String::from_str("type"), val: JsonVal::Str(
                String::from_str("template"),
            ) });
            fs.push(JsonField { key: String::from_str("template"), val: JsonVal::Str(
                template.clone(),
            ) });
        },
    }
    JsonVal::Obj(fs)
}

fn render_header(h: &crate::route_model::HeaderMatchDefinition) -> (r: JsonVal)
    ensures
        header_json_rel(*h, r),
{
    let mut fs: Vec<JsonField> = Vec::new();
    fs.push(JsonField { key: String::from_str("name"), val: JsonVal::Str(h.name.clone()) });
    fs.push(JsonField { key: String::from_str("value"), val: render_opt_str(&h.value) });
    fs.push(JsonField { key: String::from_str("regex"), val: render_opt_str(&h.regex) });
    fs.push(JsonField { key: String::from_str("present"), val: render_opt_bool(h.present) });
    JsonVal::Obj(fs)
}

fn render_query(q: &crate::route_model::QueryParameterMatchDefinition) -> (r: JsonVal)
    ensures
        query_json_rel(*q, r),
{
    let mut fs: Vec<JsonField> = Vec::new();
    fs.push(JsonField { key: String::from_str("name"), val: JsonVal::Str(q.name.clone()) });
    fs.push(JsonField { key: String::from_str("value"), val: render_opt_str(&q.value) });
    fs.push(JsonField { key: String::from_str("regex"), val: render_opt_str(&q.regex) });
    fs.push(JsonField { key: String::from_str("present"), val: render_opt_bool(q.present) });
    JsonVal::Obj(fs)
}

fn render_filter_cfg(c: &crate::scoped_config::ScopedFilterConfig) -> (r: JsonVal)
    ensures
        filter_cfg_json_rel(*c, r),
{
    match c {
        crate::scoped_config::ScopedFilterConfig::LocalRateLimit {
            stat_prefix,
            max_tokens,
            tokens_per_fill,
            fill_interval_ms,
            status_code,
        } => {
            let mut fs: Vec<JsonField> = Vec::new();
            fs.push(JsonField { key: String::from_str("statPrefix"), val: JsonVal::Str(
                stat_prefix.clone(),
            ) });
            fs.push(JsonField { key: String::from_str("maxTokens"), val: JsonVal::UInt(
                *max_tokens as u64,
            ) });
            fs.push(JsonField { key: String::from_str("tokensPerFill"), val: render_opt_u32(
                *tokens_per_fill,
            ) });
            fs.push(JsonField { key: String::from_str("fillIntervalMs"), val: JsonVal::UInt(
                *fill_interval_ms,
            ) });
            fs.push(JsonField { key: String::from_str("statusCode"), val: render_opt_u32(
                *status_code,
            ) });
            JsonVal::Obj(fs)
        },
        crate::scoped_config::ScopedFilterConfig::Other { value } => {
            let copy = value.duplicate();
            proof {
                crate::json::lemma_json_equiv_sym(copy, *value);
            }
            copy
        },
    }
}

fn render_filters(entries: &Vec<crate::scoped_config::ScopedFilterEntry>) -> (r: JsonVal)
    ensures
        filters_json_rel(entries@, r),
{
    let mut fs: Vec<JsonField> = Vec::new();
    let mut i: usize = 0;
    while i < entries.len()
        invariant
            i <= entries@.len(),
            fs@.len() == i,
            forall|j: int|
                0 <= j < i ==> (#[trigger] fs@[j]).key@ == entries@[j].filter@
                    && filter_cfg_json_rel(entries@[j].config, fs@[j].val),
        decreases entries@.len() - i,
    {
        fs.push(
            JsonField {
                key: entries[i].filter.clone(),
                val: render_filter_cfg(&entries[i].config),
            },
        );
        i = i + 1;
    }
    JsonVal::Obj(fs)
}

fn render_weighted(w: &crate::route_model::WeightedClusterDefinition) -> (r: JsonVal)
    ensures
        weighted_json_rel(*w, r),
{
    let mut fs: Vec<JsonField> = Vec::new();
    fs.push(JsonField { key: String::from_str("name"), val: JsonVal::Str(w.name.clone()) });
    fs.push(JsonField { key: String::from_str("weight"), val: JsonVal::UInt(w.weight as u64) });
    fs.push(
        JsonField { key: String::from_str("typedPerFilterConfig"), val: render_filters(
            &w.typed_per_filter_config,
        ) },
    );
    JsonVal::Obj(fs)
}

fn render_action(a: &crate::xds_route::RouteActionConfig) -> (r: JsonVal)
    ensures
        action_json_rel(*a, r),
{
    match a {
        crate::xds_route::RouteActionConfig::Cluster {
            name,
            timeout,
            prefix_rewrite,
            path_template_rewrite,
        } => {
            let mut fs: Vec<JsonField> = Vec::new();
            fs.push(JsonField { key: String::from_str("type"), val: JsonVal::Str(
                String::from_str("forward"),
            ) });
            fs.push(JsonField { key: String::from_str("cluster"), val: JsonVal::Str(
                name.clone(),
            ) });
            fs.push(JsonField { key: String::from_str("timeoutSeconds"), val: render_opt_u64(
                *timeout,
            ) });
            fs.push(JsonField { key: String::from_str("prefixRewrite"), val: render_opt_str(
                prefix_rewrite,
            ) });
            fs.push(JsonField { key: String::from_str("templateRewrite"), val: render_opt_str(
                path_template_rewrite,
            ) });
            JsonVal::Obj(fs)
        },
        crate::xds_route::RouteActionConfig::WeightedClusters { clusters, total_weight } => {
            let mut cs: Vec<JsonVal> = Vec::new();
            let mut i: usize = 0;
            while i < clusters.len()
                invariant
                    i <= clusters@.len(),
                    cs@.len() == i,
                    forall|j: int|
                        0 <= j < i ==> weighted_json_rel(clusters@[j], #[trigger] cs@[j]),
                decreases clusters@.len() - i,
            {
                cs.push(render_weighted(&clusters[i]));
                i = i + 1;
            }
            let mut fs: Vec<JsonField> = Vec::new();
            fs.push(JsonField { key: String::from_str("type"), val: JsonVal::Str(
                String::from_str("weighted"),
            ) });
            fs.push(JsonField { key: String::from_str("clusters"), val: JsonVal::Arr(cs) });
            fs.push(JsonField { key: String::from_str("totalWeight"), val: render_opt_u32(
                *total_weight,
            ) });
            JsonVal::Obj(fs)
        },
        crate::xds_route::RouteActionConfig::Redirect {
            host_redirect,
            path_redirect,
            response_code,
        } => {
            let mut fs: Vec<JsonField> = Vec::new();
            fs.push(JsonField { key: String::from_str("type"), val: JsonVal::Str(
                String::from_str("redirect"),
            ) });
            fs.push(JsonField { key: String::from_str("hostRedirect"), val: render_opt_str(
                host_redirect,
            ) });
            fs.push(JsonField { key: String::from_str("pathRedirect"), val: render_opt_str(
                path_redirect,
            ) });
            fs.push(JsonField { key: String::from_str("responseCode"), val: render_opt_u32(
                *response_code,
            ) });
            JsonVal::Obj(fs)
        },
    }
}

fn render_match(m: &crate::xds_route::RouteMatchConfig) -> (r: JsonVal)
    ensures
        match_json_rel(*m, r),
{
    let headers_val: JsonVal = match &m.headers {
        Some(hs) => {
            let mut a: Vec<JsonVal> = Vec::new();
            let mut i: usize = 0;
            while i < hs.len()
                invariant
                    i <= hs@.len(),
                    a@.len() == i,
                    forall|j: int| 0 <= j < i ==> header_json_rel(hs@[j], #[trigger] a@[j]),
                decreases hs@.len() - i,
            {
                a.push(render_header(&hs[i]));
                i = i + 1;
            }
            JsonVal::Arr(a)
        },
        None => JsonVal::Null,
    };
    let query_val: JsonVal = match &m.query_parameters {
        Some(qs) => {
            let mut a: Vec<JsonVal> = Vec::new();
            let mut i: usize = 0;
            while i < qs.len()
                invariant
                    i <= qs@.len(),
                    a@.len() == i,
                    forall|j: int| 0 <= j < i ==> query_json_rel(qs@[j], #[trigger] a@[j]),
                decreases qs@.len() - i,
            {
                a.push(render_query(&qs[i]));
                i = i + 1;
            }
            JsonVal::Arr(a)
        },
        None => JsonVal::Null,
    };
    let mut fs: Vec<JsonField> = Vec::new();
    fs.push(JsonField { key: String::from_str("path"), val: render_path(&m.path) });
    fs.push(JsonField { key: String::from_str("headers"), val: headers_val });
    fs.push(JsonField { key: String::from_str("queryParameters"), val: query_val });
    JsonVal::Obj(fs)
}

/// Renders one canonical route rule as a structured value, as the Platform
/// summaries embed it.
pub fn route_rule_to_json(rule: &crate::xds_route::RouteRule) -> (r: JsonVal)
    ensures
        rule_json_rel(*rule, r),
{
    let mut fs: Vec<JsonField> = Vec::new();
    fs.push(JsonField { key: String::from_str("name"), val: render_opt_str(&rule.name) });
    fs.push(JsonField { key: String::from_str("match"), val: render_match(&rule.route_match) });
    fs.push(JsonField { key: String::from_str("action"), val: render_action(&rule.action) });
    fs.push(
        JsonField { key: String::from_str("typedPerFilterConfig"), val: render_filters(
            &rule.typed_per_filter_config,
        ) },
    );
    JsonVal::Obj(fs)
}

// === Summaries and metadata ===

/// The domains of every virtual host of a configuration, in order.
pub open spec fn spec_all_domains(vhs: Seq<VirtualHostConfig>) -> Seq<Seq<char>>
    decreases vhs.len(),
{
    if vhs.len() == 0 {
        Seq::empty()
    } else {
        spec_all_domains(vhs.drop_last()) + vhs.last().domains.deep_view()
    }
}

/// The route rules of every virtual host of a configuration, in order.
pub open spec fn spec_all_rules(vhs: Seq<VirtualHostConfig>) -> Seq<crate::xds_route::RouteRule>
    decreases vhs.len(),
{
    if vhs.len() == 0 {
        Seq::empty()
    } else {
        spec_all_rules(vhs.drop_last()) + vhs.last().routes@
    }
}

/// The total number of route rules of a configuration.
pub open spec fn spec_total_rules(vhs: Seq<VirtualHostConfig>) -> nat
    decreases vhs.len(),
{
    if vhs.len() == 0 {
        0
    } else {
        spec_total_rules(vhs.drop_last()) + vhs.last().routes@.len()
    }
}

/// The rule count as stored in the summary, saturating at the u64 ceiling.
pub open spec fn spec_rules_count_u64(vhs: Seq<VirtualHostConfig>) -> u64 {
    if spec_total_rules(vhs) <= 0xffff_ffff_ffff_ffff {
        spec_total_rules(vhs) as u64
    } else {
        0xffff_ffff_ffff_ffffu64
    }
}

/// What a Platform summary of a stored route configuration says: its name
/// twice (as id and name), every domain, the rule count, every rule
/// rendered, and the source marker.
pub open spec fn api_summary_rel(name: Seq<char>, config: RouteConfig, v: JsonVal) -> bool {
    v matches JsonVal::Obj(fs) && fs@.len() == 6 && fs@[0].key@ == "id"@ && (
    fs@[0].val matches JsonVal::Str(s) && s@ == name) && fs@[1].key@ == "name"@ && (
    fs@[1].val matches JsonVal::Str(s) && s@ == name) && fs@[2].key@ == "domains"@ && (
    fs@[2].val matches JsonVal::Arr(ds) && ds@.len() == spec_all_domains(
        config.virtual_hosts@,
    ).len() && (forall|i: int|
        0 <= i < ds@.len() ==> ((#[trigger] ds@[i]) matches JsonVal::Str(d) && d@
            == spec_all_domains(config.virtual_hosts@)[i]))) && fs@[3].key@ == "routeCount"@
        && fs@[3].val == JsonVal::UInt(spec_rules_count_u64(config.virtual_hosts@))
        && fs@[4].key@ == "routes"@ && (fs@[4].val matches JsonVal::Arr(rs) && rs@.len()
        == spec_all_rules(config.virtual_hosts@).len() && (forall|i: int|
        0 <= i < rs@.len() ==> rule_json_rel(
            spec_all_rules(config.virtual_hosts@)[i],
            #[trigger] rs@[i],
        ))) && fs@[5].key@ == "source"@ && (fs@[5].val matches JsonVal::Str(s) && s@
        == "native_api"@)
}

/// Summarises a stored route configuration for the Platform view: its name
/// twice (as id and name), every domain it serves, how many rules it holds,
/// and the rules themselves.
pub fn routes_to_api_summary(route_name: &str, config: &RouteConfig) -> (r: JsonVal)
    ensures
        api_summary_rel(route_name@, *config, r),
{
    let mut domains: Vec<JsonVal> = Vec::new();
    let mut rules: Vec<JsonVal> = Vec::new();
    let mut count: u64 = 0;
    let mut i: usize = 0;
    let n = config.virtual_hosts.len();
    while i < n
        invariant
            i <= n,
            n == config.virtual_hosts@.len(),
            count == spec_rules_count_u64(config.virtual_hosts@.take(i as int)),
            domains@.len() == spec_all_domains(config.virtual_hosts@.take(i as int)).len(),
            forall|j: int|
                0 <= j < domains@.len() ==> ((#[trigger] domains@[j]) matches JsonVal::Str(d)
                    && d@ == spec_all_domains(config.virtual_hosts@.take(i as int))[j]),
            rules@.len() == spec_all_rules(config.virtual_hosts@.take(i as int)).len(),
            forall|j: int|
                0 <= j < rules@.len() ==> rule_json_rel(
                    spec_all_rules(config.virtual_hosts@.take(i as int))[j],
                    #[trigger] rules@[j],
                ),
        decreases n - i,
    {
        let vh = &config.virtual_hosts[i];
        proof {
            assert(config.virtual_hosts@.take(i + 1).drop_last() =~= config.virtual_hosts@.take(
                i as int,
            ));
            assert(config.virtual_hosts@.take(i + 1).last() == config.virtual_hosts@[i as int]);
        }
        let mut k: usize = 0;
        let dn = vh.domains.len();
        let ghost base = spec_all_domains(config.virtual_hosts@.take(i as int));
        while k < dn
            invariant
                k <= dn,
                i < n,
                n == config.virtual_hosts@.len(),
                dn == vh.domains@.len(),
                *vh == config.virtual_hosts@[i as int],
                base == spec_all_domains(config.virtual_hosts@.take(i as int)),
                domains@.len() == base.len() + k,
                forall|j: int|
                    0 <= j < base.len() ==> ((#[trigger] domains@[j]) matches JsonVal::Str(d)
                        && d@ == base[j]),
                forall|j: int|
                    0 <= j < k ==> ((#[trigger] domains@[base.len() + j]) matches JsonVal::Str(d)
                        && d@ == vh.domains@[j]@),
            decreases dn - k,
        {
            domains.push(JsonVal::Str(vh.domains[k].clone()));
            k = k + 1;
        }
        let mut k: usize = 0;
        let rn = vh.routes.len();
        let ghost rbase = spec_all_rules(config.virtual_hosts@.take(i as int));
        while k < rn
            invariant
                k <= rn,
                i < n,
                n == config.virtual_hosts@.len(),
                rn == vh.routes@.len(),
                *vh == config.virtual_hosts@[i as int],
                rbase == spec_all_rules(config.virtual_hosts@.take(i as int)),
                rules@.len() == rbase.len() + k,
                forall|j: int|
                    0 <= j < rbase.len() ==> rule_json_rel(rbase[j], #[trigger] rules@[j]),
                forall|j: int|
                    0 <= j < k ==> rule_json_rel(
                        vh.routes@[j],
                        #[trigger] rules@[rbase.len() + j],
                    ),
            decreases rn - k,
        {
            rules.push(route_rule_to_json(&vh.routes[k]));
            k = k + 1;
        }
        if count <= 0xffff_ffff_ffff_ffffu64 - (rn as u64) {
            count = count + (rn as u64);
        } else {
            count = 0xffff_ffff_ffff_ffffu64;
        }
        proof {
            let vhs1 = config.virtual_hosts@.take(i + 1);
            assert(vhs1.drop_last() =~= config.virtual_hosts@.take(i as int));
            assert(vhs1.last() == config.virtual_hosts@[i as int]);
            assert(vhs1.len() == i + 1);
            assert(spec_all_domains(vhs1) == spec_all_domains(vhs1.drop_last())
                + vhs1.last().domains.deep_view());
            assert(spec_all_domains(vhs1.drop_last()) == base);
            assert(spec_all_domains(config.virtual_hosts@.take(i + 1)) == base
                + vh.domains.deep_view());
            assert forall|j: int|
                0 <= j < domains@.len() implies (#[trigger] domains@[j]) matches JsonVal::Str(d)
                && d@ == spec_all_domains(config.virtual_hosts@.take(i + 1))[j] by {
                if j < base.len() {
                } else {
                    let t = j - base.len();
                    assert(domains@[base.len() + t] matches JsonVal::Str(d) && d@
                        == vh.domains@[t]@);
                    assert(vh.domains.deep_view()[t] == (vh.domains@[t])@);
                }
            }
            assert(spec_all_rules(vhs1) == spec_all_rules(vhs1.drop_last())
                + vhs1.last().routes@);
            assert(spec_all_rules(config.virtual_hosts@.take(i + 1)) == rbase + vh.routes@);
            assert forall|j: int| 0 <= j < rules@.len() implies rule_json_rel(
                spec_all_rules(config.virtual_hosts@.take(i + 1))[j],
                #[trigger] rules@[j],
            ) by {
                if j < rbase.len() {
                } else {
                    let t = j - rbase.len();
                    assert(rule_json_rel(vh.routes@[t], rules@[rbase.len() + t]));
                }
            }
        }
        i = i + 1;
    }
    proof {
        assert(config.virtual_hosts@.take(n as int) =~= config.virtual_hosts@);
    }
    let mut fields: Vec<JsonField> = Vec::new();
    fields.push(
        JsonField { key: String::from_str("id"), val: JsonVal::Str(String::from_str(route_name)) },
    );
    fields.push(
        JsonField { key: String::from_str("name"), val: JsonVal::Str(
            String::from_str(route_name),
        ) },
    );
    fields.push(JsonField { key: String::from_str("domains"), val: JsonVal::Arr(domains) });
    fields.push(JsonField { key: String::from_str("routeCount"), val: JsonVal::UInt(count) });
    fields.push(JsonField { key: String::from_str("routes"), val: JsonVal::Arr(rules) });
    fields.push(
        JsonField { key: String::from_str("source"), val: JsonVal::Str(
            String::from_str("native_api"),
        ) },
    );
    JsonVal::Obj(fields)
}

/// Builds the provenance note attached to resources that cross between the
/// two API surfaces: the source surface, the original name, fixed ownership
/// fields, and the time it was written.
pub fn create_cross_api_metadata(source: &str, original_name: &str) -> (r: JsonVal)
    ensures
        r matches JsonVal::Obj(fs) && fs@.len() == 6 && fs@[0].key@ == "source"@ && (
        fs@[0].val matches JsonVal::Str(s) && s@ == source@) && fs@[1].key@ == "original_name"@
            && (fs@[1].val matches JsonVal::Str(s) && s@ == original_name@) && fs@[2].key@
            == "created_via"@ && (fs@[2].val matches JsonVal::Str(s) && s@ == source@)
            && fs@[3].key@ == "managed_by"@ && (fs@[3].val matches JsonVal::Str(s) && s@
            == "flowplane"@) && fs@[4].key@ == "cross_api_visible"@ && fs@[4].val == (
        JsonVal::Bool(true)) && fs@[5].key@ == "timestamp"@ && fs@[5].val is Str,
{
    let mut fields: Vec<JsonField> = Vec::new();
    fields.push(
        JsonField { key: String::from_str("source"), val: JsonVal::Str(String::from_str(source)) },
    );
    fields.push(
        JsonField { key: String::from_str("original_name"), val: JsonVal::Str(
            String::from_str(original_name),
        ) },
    );
    fields.push(
        JsonField { key: String::from_str("created_via"), val: JsonVal::Str(
            String::from_str(source),
        ) },
    );
    fields.push(
        JsonField { key: String::from_str("managed_by"), val: JsonVal::Str(
            String::from_str("flowplane"),
        ) },
    );
    fields.push(
        JsonField { key: String::from_str("cross_api_visible"), val: JsonVal::Bool(true) },
    );
    fields.push(
        JsonField { key: String::from_str("timestamp"), val: JsonVal::Str(now_rfc3339()) },
    );
    JsonVal::Obj(fields)
}

// === Lowering policies to proxy filter configurations ===

/// What the lowered rate-limit filter configuration says: the fixed service
/// scaffolding and one descriptor entry whose value is `requests/interval`.
pub open spec fn rl_filter_rel(
    rl: crate::platform_api_definitions::RateLimitPolicy,
    r: JsonVal,
) -> bool {
    r matches JsonVal::Obj(g) && g@.len() == 5 && g@[0].key@ == "domain"@ && (
    g@[0].val matches JsonVal::Str(s) && s@ == "flowplane"@) && g@[1].key@ == "stage"@
        && g@[1].val == JsonVal::UInt(0u64) && g@[2].key@ == "request_type"@ && (
    g@[2].val matches JsonVal::Str(s) && s@ == "both"@) && g@[3].key@ == "timeout"@ && (
    g@[3].val matches JsonVal::Str(s) && s@ == "0.025s"@) && g@[4].key@ == "descriptors"@ && (
    g@[4].val matches JsonVal::Arr(ds) && ds@.len() == 1 && (
    ds@[0] matches JsonVal::Obj(entry) && entry@.len() == 1 && entry@[0].key@ == "entries"@ && (
    entry@[0].val matches JsonVal::Arr(es) && es@.len() == 1 && (
    es@[0] matches JsonVal::Obj(kv) && kv@.len() == 2 && kv@[0].key@ == "key"@ && (
    kv@[0].val matches JsonVal::Str(s) && s@ == "rate_limit"@) && kv@[1].key@ == "value"@ && (
    kv@[1].val matches JsonVal::Str(s) && s@ == spec_dec(rl.requests as nat) + "/"@
        + rl.interval@)))))
}

fn rate_limit_filter(rl: &crate::platform_api_definitions::RateLimitPolicy) -> (r: JsonVal)
    ensures
        rl_filter_rel(*rl, r),
{
    let value = crate::text::dec_string_of(rl.requests as u64).concat("/").concat(
        rl.interval.as_str(),
    );
    let mut kv: Vec<JsonField> = Vec::new();
    kv.push(
        JsonField { key: String::from_str("key"), val: JsonVal::Str(
            String::from_str("rate_limit"),
        ) },
    );
    kv.push(JsonField { key: String::from_str("value"), val: JsonVal::Str(value) });
    let mut es: Vec<JsonVal> = Vec::new();
    es.push(JsonVal::Obj(kv));
    let mut entry: Vec<JsonField> = Vec::new();
    entry.push(JsonField { key: String::from_str("entries"), val: JsonVal::Arr(es) });
    let mut ds: Vec<JsonVal> = Vec::new();
    ds.push(JsonVal::Obj(entry));
    let mut g: Vec<JsonField> = Vec::new();
    g.push(
        JsonField { key: String::from_str("domain"), val: JsonVal::Str(
            String::from_str("flowplane"),
        ) },
    );
    g.push(JsonField { key: String::from_str("stage"), val: JsonVal::UInt(0) });
    g.push(
        JsonField { key: String::from_str("request_type"), val: JsonVal::Str(
            String::from_str("both"),
        ) },
    );
    g.push(
        JsonField { key: String::from_str("timeout"), val: JsonVal::Str(
            String::from_str("0.025s"),
        ) },
    );
    g.push(JsonField { key: String::from_str("descriptors"), val: JsonVal::Arr(ds) });
    JsonVal::Obj(g)
}

/// What the lowered CORS filter configuration says: exact origin matches,
/// comma-joined method and header lists, the credentials flag, and the
/// optional max age as text.
pub open spec fn cors_filter_rel(
    cors: crate::platform_api_definitions::CorsPolicy,
    r: JsonVal,
) -> bool {
    r matches JsonVal::Obj(g) && g@.len() == 5 && g@[0].key@ == "allow_origin_string_match"@ && (
    g@[0].val matches JsonVal::Arr(os) && os@.len() == cors.origins@.len() && (forall|i: int|
        0 <= i < os@.len() ==> ((#[trigger] os@[i]) matches JsonVal::Obj(m) && m@.len() == 1
            && m@[0].key@ == "exact"@ && (m@[0].val matches JsonVal::Str(s) && s@
            == cors.origins@[i]@)))) && g@[1].key@ == "allow_methods"@ && (
    g@[1].val matches JsonVal::Str(s) && s@ == spec_join(cors.methods.deep_view(), ", "@))
        && g@[2].key@ == "allow_headers"@ && (g@[2].val matches JsonVal::Str(s) && s@
        == spec_join(cors.headers.deep_view(), ", "@)) && g@[3].key@ == "allow_credentials"@
        && g@[3].val == JsonVal::Bool(cors.allow_credentials) && g@[4].key@ == "max_age"@ && (
    match cors.max_age {
        Some(age) => g@[4].val matches JsonVal::Str(s) && s@ == spec_dec(age as nat),
        None => g@[4].val is Null,
    })
}

fn cors_filter(cors: &crate::platform_api_definitions::CorsPolicy) -> (r: JsonVal)
    ensures
        cors_filter_rel(*cors, r),
{
    let mut os: Vec<JsonVal> = Vec::new();
    let mut i: usize = 0;
    while i < cors.origins.len()
        invariant
            i <= cors.origins@.len(),
            os@.len() == i,
            forall|j: int|
                0 <= j < i ==> ((#[trigger] os@[j]) matches JsonVal::Obj(m) && m@.len() == 1
                    && m@[0].key@ == "exact"@ && (m@[0].val matches JsonVal::Str(s) && s@
                    == cors.origins@[j]@)),
        decreases cors.origins@.len() - i,
    {
        let mut m: Vec<JsonField> = Vec::new();
        m.push(
            JsonField { key: String::from_str("exact"), val: JsonVal::Str(
                cors.origins[i].clone(),
            ) },
        );
        os.push(JsonVal::Obj(m));
        i = i + 1;
    }
    let methods = crate::text::join_all(&cors.methods, ", ");
    let headers = crate::text::join_all(&cors.headers, ", ");
    let max_age_val: JsonVal = match cors.max_age {
        Some(age) => JsonVal::Str(crate::text::dec_string_of(age as u64)),
        None => JsonVal::Null,
    };
    let mut g: Vec<JsonField> = Vec::new();
    g.push(
        JsonField { key: String::from_str("allow_origin_string_match"), val: JsonVal::Arr(os) },
    );
    g.push(JsonField { key: String::from_str("allow_methods"), val: JsonVal::Str(methods) });
    g.push(JsonField { key: String::from_str("allow_headers"), val: JsonVal::Str(headers) });
    g.push(
        JsonField { key: String::from_str("allow_credentials"), val: JsonVal::Bool(
            cors.allow_credentials,
        ) },
    );
    g.push(JsonField { key: String::from_str("max_age"), val: max_age_val });
    JsonVal::Obj(g)
}

/// What the lowered JWT filter configuration says: the provider taken from
/// the policy's config (or an empty object), and a catch-all rule that
/// demands the provider exactly when authentication is required.
pub open spec fn jwt_filter_rel(
    auth: crate::platform_api_definitions::AuthenticationPolicy,
    r: JsonVal,
) -> bool {
    r matches JsonVal::Obj(g) && g@.len() == 2 && g@[0].key@ == "providers"@ && (
    g@[0].val matches JsonVal::Obj(p) && p@.len() == 1 && p@[0].key@ == "provider"@ && (
    match auth.config {
        Some(cfg) => crate::json::json_equiv(p@[0].val, cfg),
        None => p@[0].val matches JsonVal::Obj(e) && e@.len() == 0,
    })) && g@[1].key@ == "rules"@ && (g@[1].val matches JsonVal::Arr(rs) && rs@.len() == 1 && (
    rs@[0] matches JsonVal::Obj(rule) && rule@.len() == 2 && rule@[0].key@ == "match"@ && (
    rule@[0].val matches JsonVal::Obj(m) && m@.len() == 1 && m@[0].key@ == "prefix"@ && (
    m@[0].val matches JsonVal::Str(s) && s@ == "/"@)) && rule@[1].key@ == "requires"@ && (
    if auth.required {
        rule@[1].val matches JsonVal::Obj(q) && q@.len() == 1 && q@[0].key@ == "provider_name"@
            && (q@[0].val matches JsonVal::Str(s) && s@ == "provider"@)
    } else {
        rule@[1].val matches JsonVal::Obj(q) && q@.len() == 0
    })))
}

fn jwt_filter(auth: &crate::platform_api_definitions::AuthenticationPolicy) -> (r: JsonVal)
    ensures
        jwt_filter_rel(*auth, r),
{
    let provider_val: JsonVal = match &auth.config {
        Some(cfg) => cfg.duplicate(),
        None => JsonVal::Obj(Vec::new()),
    };
    let mut p: Vec<JsonField> = Vec::new();
    p.push(JsonField { key: String::from_str("provider"), val: provider_val });
    let mut m: Vec<JsonField> = Vec::new();
    m.push(JsonField { key: String::from_str("prefix"), val: JsonVal::Str(String::from_str("/")) });
    let requires_val: JsonVal = if auth.required {
        let mut q: Vec<JsonField> = Vec::new();
        q.push(
            JsonField { key: String::from_str("provider_name"), val: JsonVal::Str(
                String::from_str("provider"),
            ) },
        );
        JsonVal::Obj(q)
    } else {
        JsonVal::Obj(Vec::new())
    };
    let mut rule: Vec<JsonField> = Vec::new();
    rule.push(JsonField { key: String::from_str("match"), val: JsonVal::Obj(m) });
    rule.push(JsonField { key: String::from_str("requires"), val: requires_val });
    let mut rs: Vec<JsonVal> = Vec::new();
    rs.push(JsonVal::Obj(rule));
    let mut g: Vec<JsonField> = Vec::new();
    g.push(JsonField { key: String::from_str("providers"), val: JsonVal::Obj(p) });
    g.push(JsonField { key: String::from_str("rules"), val: JsonVal::Arr(rs) });
    JsonVal::Obj(g)
}

/// Lowers a policy set to the proxy filter configurations it implies: a
/// rate-limit service call with a `requests/interval` descriptor, a CORS
/// allow-list, and a JWT provider with a catch-all rule when authentication
/// is of type `jwt`.  Absent policies yield no filter; unknown policy fields
/// yield nothing.
/// How many of the three filters a policy set lowers to.
pub open spec fn spec_rl_n(p: ApiPolicies) -> int {
    if p.rate_limit is Some {
        1
    } else {
        0
    }
}

pub open spec fn spec_cors_n(p: ApiPolicies) -> int {
    if p.cors is Some {
        1
    } else {
        0
    }
}

pub open spec fn spec_jwt_n(p: ApiPolicies) -> int {
    if p.authentication matches Some(a) && a.auth_type@ == "jwt"@ {
        1
    } else {
        0
    }
}

pub fn policies_to_filters(policies: &ApiPolicies) -> (r: JsonVal)
    ensures
        r is Obj,
        (r matches JsonVal::Obj(fs) ==> {
            &&& fs@.len() == spec_rl_n(*policies) + spec_cors_n(*policies) + spec_jwt_n(*policies)
            &&& forall|i: int|
                0 <= i < fs@.len() ==> (#[trigger] fs@[i]).key@ == "envoy.filters.http.ratelimit"@
                    || fs@[i].key@ == "envoy.filters.http.cors"@ || fs@[i].key@
                    == "envoy.filters.http.jwt_authn"@
            &&& (policies.rate_limit matches Some(rl) ==> (fs@[0].key@
                == "envoy.filters.http.ratelimit"@ && rl_filter_rel(rl, fs@[0].val)))
            &&& (policies.cors matches Some(c) ==> (fs@[spec_rl_n(*policies)].key@
                == "envoy.filters.http.cors"@ && cors_filter_rel(
                c,
                fs@[spec_rl_n(*policies)].val,
            )))
            &&& (policies.authentication matches Some(a) ==> (a.auth_type@ == "jwt"@ ==> (fs@[
            spec_rl_n(*policies) + spec_cors_n(*policies)].key@ == "envoy.filters.http.jwt_authn"@
                && jwt_filter_rel(a, fs@[spec_rl_n(*policies) + spec_cors_n(*policies)].val))))
            &&& (policies.rate_limit is Some <==> spec_obj_has_key(
                fs@,
                "envoy.filters.http.ratelimit"@,
            ))
            &&& (policies.cors is Some <==> spec_obj_has_key(fs@, "envoy.filters.http.cors"@))
            &&& ((policies.authentication matches Some(a) && a.auth_type@ == "jwt"@)
                <==> spec_obj_has_key(fs@, "envoy.filters.http.jwt_authn"@))
        }),
{
    let mut fields: Vec<JsonField> = Vec::new();
    match &policies.rate_limit {
        Some(rl) => {
            fields.push(
                JsonField { key: String::from_str("envoy.filters.http.ratelimit"), val:
                    rate_limit_filter(rl) },
            );
        },
        None => {},
    }
    let ghost after_rl = fields@;
    match &policies.cors {
        Some(c) => {
            fields.push(
                JsonField { key: String::from_str("envoy.filters.http.cors"), val: cors_filter(
                    c,
                ) },
            );
        },
        None => {},
    }
    let ghost after_cors = fields@;
    match &policies.authentication {
        Some(a) => {
            if crate::text::eq_lit(&a.auth_type, "jwt") {
                fields.push(
                    JsonField { key: String::from_str("envoy.filters.http.jwt_authn"), val:
                        jwt_filter(a) },
                );
            }
        },
        None => {},
    }
    proof {
        reveal_strlit("envoy.filters.http.ratelimit");
        reveal_strlit("envoy.filters.http.cors");
        reveal_strlit("envoy.filters.http.jwt_authn");
        let rl_k = "envoy.filters.http.ratelimit"@;
        let cors_k = "envoy.filters.http.cors"@;
        let jwt_k = "envoy.filters.http.jwt_authn"@;
        assert(rl_k != cors_k) by {
            assert(rl_k.len() != cors_k.len());
        }
        assert(cors_k != jwt_k) by {
            assert(cors_k.len() != jwt_k.len());
        }
        assert(rl_k != jwt_k) by {
            assert(rl_k[19] != jwt_k[19]);
        }
        assert forall|i: int| 0 <= i < fields@.len() implies (#[trigger] fields@[i]).key@ == rl_k
            || fields@[i].key@ == cors_k || fields@[i].key@ == jwt_k by {}
        if policies.rate_limit is Some {
            assert(fields@[0].key@ == rl_k);
            assert(spec_obj_has_key(fields@, rl_k));
        } else {
            assert(forall|i: int|
                0 <= i < fields@.len() ==> (#[trigger] fields@[i]).key@ != rl_k);
        }
        if policies.cors is Some {
            assert(fields@[after_rl.len() as int].key@ == cors_k);
            assert(spec_obj_has_key(fields@, cors_k));
        } else {
            assert(forall|i: int|
                0 <= i < fields@.len() ==> (#[trigger] fields@[i]).key@ != cors_k);
        }
        match &policies.authentication {
            Some(a) => {
                if a.auth_type@ == "jwt"@ {
                    assert(fields@[after_cors.len() as int].key@ == jwt_k);
                    assert(spec_obj_has_key(fields@, jwt_k));
                } else {
                    assert(forall|i: int|
                        0 <= i < fields@.len() ==> (#[trigger] fields@[i]).key@ != jwt_k);
                }
            },
            None => {
                assert(forall|i: int|
                    0 <= i < fields@.len() ==> (#[trigger] fields@[i]).key@ != jwt_k);
            },
        }
    }
    JsonVal::Obj(fields)
}

/// Whether a field list holds a key.
pub open spec fn spec_obj_has_key(fs: Seq<JsonField>, k: Seq<char>) -> bool {
    exists|i: int| 0 <= i < fs.len() && (#[trigger] fs[i]).key@ == k
}

} // verus!
