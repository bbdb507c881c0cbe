//! The canonical cluster model: upstream pools with endpoints, TLS and
//! load-balancing settings, circuit breakers, outlier detection and health
//! checks, together with the request shape the API accepts and its
//! validation.

use vstd::prelude::*;

use crate::errors::{validation_error, ApiError};
use crate::text::{dup_opt_string, is_blank, opt_str_equiv};
use crate::token_validate::is_name_char;

verus! {

/// An upstream endpoint: either a `host:port` text form or a split address.
pub enum EndpointSpec {
    Text(String),
    Address { host: String, port: u16 },
}

/// Per-priority circuit breaker thresholds.
#[derive(Clone, Copy)]
pub struct CircuitBreakerThresholdsSpec {
    pub max_connections: Option<u32>,
    pub max_pending_requests: Option<u32>,
    pub max_requests: Option<u32>,
    pub max_retries: Option<u32>,
}

#[derive(Clone, Copy)]
pub struct CircuitBreakersSpec {
    pub default: Option<CircuitBreakerThresholdsSpec>,
    pub high: Option<CircuitBreakerThresholdsSpec>,
}

#[derive(Clone, Copy)]
pub struct OutlierDetectionSpec {
    pub consecutive_5xx: Option<u32>,
    pub interval_seconds: Option<u64>,
    pub base_ejection_time_seconds: Option<u64>,
    pub max_ejection_percent: Option<u32>,
}

/// An active health check, HTTP or TCP.
pub enum HealthCheckSpec {
    Http {
        path: String,
        host: Option<String>,
        method: Option<String>,
        interval_seconds: Option<u64>,
        timeout_seconds: Option<u64>,
        healthy_threshold: Option<u32>,
        unhealthy_threshold: Option<u32>,
        expected_statuses: Option<Vec<u32>>,
    },
    Tcp { interval_seconds: Option<u64>, timeout_seconds: Option<u64> },
}

/// The canonical cluster configuration.
pub struct ClusterSpec {
    pub connect_timeout_seconds: Option<u64>,
    pub endpoints: Vec<EndpointSpec>,
    pub use_tls: Option<bool>,
    pub tls_server_name: Option<String>,
    pub dns_lookup_family: Option<String>,
    pub lb_policy: Option<String>,
    pub circuit_breakers: Option<CircuitBreakersSpec>,
    pub health_checks: Vec<HealthCheckSpec>,
    pub outlier_detection: Option<OutlierDetectionSpec>,
}

/// The view of a cluster the API returns.
pub struct ClusterResponse {
    pub name: String,
    pub service_name: String,
    pub config: ClusterSpec,
}

pub struct EndpointRequest {
    pub host: String,
    pub port: u16,
}

pub struct HealthCheckRequest {
    pub check_type: String,
    pub path: Option<String>,
    pub host: Option<String>,
    pub method: Option<String>,
    pub interval_seconds: Option<u64>,
    pub timeout_seconds: Option<u64>,
    pub healthy_threshold: Option<u32>,
    pub unhealthy_threshold: Option<u32>,
    pub expected_statuses: Option<Vec<u32>>,
}

#[derive(Clone, Copy)]
pub struct CircuitBreakerThresholdsRequest {
    pub max_connections: Option<u32>,
    pub max_pending_requests: Option<u32>,
    pub max_requests: Option<u32>,
    pub max_retries: Option<u32>,
}

#[derive(Clone, Copy)]
pub struct CircuitBreakersRequest {
    pub default: Option<CircuitBreakerThresholdsRequest>,
    pub high: Option<CircuitBreakerThresholdsRequest>,
}

#[derive(Clone, Copy)]
pub struct OutlierDetectionRequest {
    pub consecutive_5xx: Option<u32>,
    pub interval_seconds: Option<u64>,
    pub base_ejection_time_seconds: Option<u64>,
    pub max_ejection_percent: Option<u32>,
}

/// What the API accepts when creating or replacing a cluster.
pub struct CreateClusterBody {
    pub name: String,
    pub service_name: Option<String>,
    pub endpoints: Vec<EndpointRequest>,
    pub connect_timeout_seconds: Option<u64>,
    pub use_tls: Option<bool>,
    pub tls_server_name: Option<String>,
    pub dns_lookup_family: Option<String>,
    pub lb_policy: Option<String>,
    pub health_checks: Vec<HealthCheckRequest>,
    pub circuit_breakers: Option<CircuitBreakersRequest>,
    pub outlier_detection: Option<OutlierDetectionRequest>,
}

// === Equivalence ===

pub open spec fn opt_u32_vec_equiv(a: Option<Vec<u32>>, b: Option<Vec<u32>>) -> bool {
    match (a, b) {
        (Option::None, Option::None) => true,
        (Option::Some(x), Option::Some(y)) => x@ == y@,
        _ => false,
    }
}

pub open spec fn endpoint_spec_equiv(a: EndpointSpec, b: EndpointSpec) -> bool {
    match (a, b) {
        (EndpointSpec::Text(x), EndpointSpec::Text(y)) => x@ == y@,
        (
            EndpointSpec::Address { host: xh, port: xp },
            EndpointSpec::Address { host: yh, port: yp },
        ) => xh@ == yh@ && xp == yp,
        _ => false,
    }
}

pub open spec fn health_check_equiv(a: HealthCheckSpec, b: HealthCheckSpec) -> bool {
    match (a, b) {
        (
            HealthCheckSpec::Http {
                path: ap,
                host: ah,
                method: am,
                interval_seconds: ai,
                timeout_seconds: at,
                healthy_threshold: ahy,
                unhealthy_threshold: auh,
                expected_statuses: aes,
            },
            HealthCheckSpec::Http {
                path: bp,
                host: bh,
                method: bm,
                interval_seconds: bi,
                timeout_seconds: bt,
                healthy_threshold: bhy,
                unhealthy_threshold: buh,
                expected_statuses: bes,
            },
        ) => {
            &&& ap@ == bp@
            &&& opt_str_equiv(ah, bh)
            &&& opt_str_equiv(am, bm)
            &&& ai == bi
            &&& at == bt
            &&& ahy == bhy
            &&& auh == buh
            &&& opt_u32_vec_equiv(aes, bes)
        },
        (
            HealthCheckSpec::Tcp { interval_seconds: ai, timeout_seconds: at },
            HealthCheckSpec::Tcp { interval_seconds: bi, timeout_seconds: bt },
        ) => ai == bi && at == bt,
        _ => false,
    }
}

/// Field-wise equivalence of two cluster configurations.
pub open spec fn cluster_spec_equiv(a: ClusterSpec, b: ClusterSpec) -> bool {
    &&& a.connect_timeout_seconds == b.connect_timeout_seconds
    &&& a.endpoints@.len() == b.endpoints@.len()
    &&& forall|i: int|
        0 <= i < a.endpoints@.len() ==> endpoint_spec_equiv(
            #[trigger] a.endpoints@[i],
            b.endpoints@[i],
        )
    &&& a.use_tls == b.use_tls
    &&& opt_str_equiv(a.tls_server_name, b.tls_server_name)
    &&& opt_str_equiv(a.dns_lookup_family, b.dns_lookup_family)
    &&& opt_str_equiv(a.lb_policy, b.lb_policy)
    &&& a.circuit_breakers == b.circuit_breakers
    &&& a.health_checks@.len() == b.health_checks@.len()
    &&& forall|i: int|
        0 <= i < a.health_checks@.len() ==> health_check_equiv(
            #[trigger] a.health_checks@[i],
            b.health_checks@[i],
        )
    &&& a.outlier_detection == b.outlier_detection
}

// === Copies ===

fn dup_opt_u32_vec(o: &Option<Vec<u32>>) -> (r: Option<Vec<u32>>)
    ensures
        opt_u32_vec_equiv(r, *o),
{
    match o {
        Option::Some(v) => {
            let mut out: Vec<u32> = Vec::new();
            let mut i: usize = 0;
            while i < v.len()
                invariant
                    i <= v@.len(),
                    out@.len() == i,
                    forall|j: int| 0 <= j < i ==> out@[j] == v@[j],
                decreases v@.len() - i,
            {
                out.push(v[i]);
                i = i + 1;
            }
            proof {
                assert(out@ =~= v@);
            }
            Option::Some(out)
        },
        Option::None => Option::None,
    }
}

impl EndpointSpec {
    pub fn duplicate(&self) -> (r: Self)
        ensures
            endpoint_spec_equiv(r, *self),
    {
        match self {
            EndpointSpec::Text(s) => EndpointSpec::Text(s.clone()),
            EndpointSpec::Address { host, port } => {
                EndpointSpec::Address { host: host.clone(), port: *port }
            },
        }
    }
}

impl HealthCheckSpec {
    pub fn duplicate(&self) -> (r: Self)
        ensures
            health_check_equiv(r, *self),
    {
        match self {
            HealthCheckSpec::Http {
                path,
                host,
                method,
                interval_seconds,
                timeout_seconds,
                healthy_threshold,
                unhealthy_threshold,
                expected_statuses,
            } => HealthCheckSpec::Http {
                path: path.clone(),
                host: dup_opt_string(host),
                method: dup_opt_string(method),
                interval_seconds: *interval_seconds,
                timeout_seconds: *timeout_seconds,
                healthy_threshold: *healthy_threshold,
                unhealthy_threshold: *unhealthy_threshold,
                expected_statuses: dup_opt_u32_vec(expected_statuses),
            },
            HealthCheckSpec::Tcp { interval_seconds, timeout_seconds } => {
                HealthCheckSpec::Tcp {
                    interval_seconds: *interval_seconds,
                    timeout_seconds: *timeout_seconds,
                }
            },
        }
    }
}

impl ClusterSpec {
    /// Builds an equivalent copy of the configuration.
    pub fn duplicate(&self) -> (r: Self)
        ensures
            cluster_spec_equiv(r, *self),
    {
        let mut endpoints: Vec<EndpointSpec> = Vec::new();
        let mut i: usize = 0;
        while i < self.endpoints.len()
            invariant
                i <= self.endpoints@.len(),
                endpoints@.len() == i,
                forall|j: int|
                    0 <= j < i ==> endpoint_spec_equiv(
                        #[trigger] endpoints@[j],
                        self.endpoints@[j],
                    ),
            decreases self.endpoints@.len() - i,
        {
            endpoints.push(self.endpoints[i].duplicate());
            i = i + 1;
        }
        let mut health_checks: Vec<HealthCheckSpec> = Vec::new();
        let mut i: usize = 0;
        while i < self.health_checks.len()
            invariant
                i <= self.health_checks@.len(),
                health_checks@.len() == i,
                forall|j: int|
                    0 <= j < i ==> health_check_equiv(
                        #[trigger] health_checks@[j],
                        self.health_checks@[j],
                    ),
            decreases self.health_checks@.len() - i,
        {
            health_checks.push(self.health_checks[i].duplicate());
            i = i + 1;
        }
        ClusterSpec {
            connect_timeout_seconds: self.connect_timeout_seconds,
            endpoints,
            use_tls: self.use_tls,
            tls_server_name: dup_opt_string(&self.tls_server_name),
            dns_lookup_family: dup_opt_string(&self.dns_lookup_family),
            lb_policy: dup_opt_string(&self.lb_policy),
            circuit_breakers: self.circuit_breakers,
            health_checks,
            outlier_detection: self.outlier_detection,
        }
    }
}

// === Validation of the request shape ===

/// A resource name: 1 to 255 characters, letters, digits, underscore or
/// dash.
pub open spec fn spec_resource_name_valid(s: Seq<char>) -> bool {
    1 <= s.len() <= 255 && forall|i: int| 0 <= i < s.len() ==> is_name_char(#[trigger] s[i])
}

/// Whether `s` names one of the supported load-balancing policies.
pub open spec fn spec_lb_policy_valid(s: Seq<char>) -> bool {
    s == "ROUND_ROBIN"@ || s == "LEAST_REQUEST"@ || s == "RANDOM"@ || s == "RING_HASH"@ || s
        == "MAGLEV"@
}

/// Whether `s` names one of the supported DNS lookup families.
pub open spec fn spec_dns_family_valid(s: Seq<char>) -> bool {
    s == "V4"@ || s == "V6"@ || s == "AUTO"@
}

/// Everything the API checks before a cluster request is accepted: a
/// well-formed name, at least one endpoint, no port zero, and recognised
/// load-balancing and DNS-family names when they are given.
pub open spec fn cluster_body_valid(b: CreateClusterBody) -> bool {
    &&& spec_resource_name_valid(b.name@)
    &&& b.endpoints@.len() >= 1
    &&& forall|i: int| 0 <= i < b.endpoints@.len() ==> (#[trigger] b.endpoints@[i]).port >= 1
    &&& forall|i: int|
        0 <= i < b.endpoints@.len() ==> !crate::text::spec_is_blank(
            (#[trigger] b.endpoints@[i]).host@,
        )
    &&& (b.lb_policy matches Some(p) ==> spec_lb_policy_valid(p@))
    &&& (b.dns_lookup_family matches Some(d) ==> spec_dns_family_valid(d@))
}

fn validate_resource_name(name: &str) -> (r: bool)
    ensures
        r == spec_resource_name_valid(name@),
{
    let n = name.unicode_len();
    if n < 1 || n > 255 {
        return false;
    }
    let mut i: usize = 0;
    while i < n
        invariant
            i <= n,
            n == name@.len(),
            1 <= n <= 255,
            forall|j: int| 0 <= j < i ==> is_name_char(#[trigger] name@[j]),
        decreases n - i,
    {
        let c = name.get_char(i);
        if !(('a' <= c && c <= 'z') || ('A' <= c && c <= 'Z') || ('0' <= c && c <= '9') || c == '_'
            || c == '-') {
            return false;
        }
        i = i + 1;
    }
    true
}

fn validate_lb_policy(p: &String) -> (r: bool)
    ensures
        r == spec_lb_policy_valid(p@),
{
    crate::text::eq_lit(p, "ROUND_ROBIN") || crate::text::eq_lit(p, "LEAST_REQUEST")
        || crate::text::eq_lit(p, "RANDOM") || crate::text::eq_lit(p, "RING_HASH")
        || crate::text::eq_lit(p, "MAGLEV")
}

/// Runs every field check on a cluster request; accepted exactly when the
/// request is valid.
pub fn validate_cluster_body(b: &CreateClusterBody) -> (r: Result<(), ApiError>)
    ensures
        r is Ok <==> cluster_body_valid(*b),
        r matches Err(e) ==> e is Validation,
{
    if !validate_resource_name(b.name.as_str()) {
        return Err(validation_error("Cluster name must be 1-255 characters of [A-Za-z0-9_-]"));
    }
    if b.endpoints.len() < 1 {
        return Err(validation_error("Cluster must include at least one endpoint"));
    }
    let mut i: usize = 0;
    while i < b.endpoints.len()
        invariant
            i <= b.endpoints@.len(),
            forall|j: int| 0 <= j < i ==> (#[trigger] b.endpoints@[j]).port >= 1,
            forall|j: int|
                0 <= j < i ==> !crate::text::spec_is_blank((#[trigger] b.endpoints@[j]).host@),
        decreases b.endpoints@.len() - i,
    {
        if b.endpoints[i].port < 1 {
            return Err(validation_error("Endpoint ports must be between 1 and 65535"));
        }
        if is_blank(b.endpoints[i].host.as_str()) {
            return Err(validation_error("Endpoint hosts must not be empty"));
        }
        i = i + 1;
    }
    match &b.lb_policy {
        Some(p) => {
            if !validate_lb_policy(p) {
                return Err(validation_error("Unknown load balancing policy"));
            }
        },
        None => {},
    }
    match &b.dns_lookup_family {
        Some(d) => {
            if !(crate::text::eq_lit(d, "V4") || crate::text::eq_lit(d, "V6")
                || crate::text::eq_lit(d, "AUTO")) {
                return Err(validation_error("Unknown DNS lookup family"));
            }
        },
        None => {},
    }
    Ok(())
}

// === The canonical form of a request ===

pub open spec fn endpoint_req_rel(a: EndpointRequest, b: EndpointSpec) -> bool {
    b matches EndpointSpec::Address { host, port } && host@ == a.host@ && port == a.port
}

pub open spec fn health_check_req_rel(a: HealthCheckRequest, b: HealthCheckSpec) -> bool {
    if a.check_type@ == "tcp"@ {
        b matches HealthCheckSpec::Tcp { interval_seconds, timeout_seconds }
            && interval_seconds == a.interval_seconds && timeout_seconds == a.timeout_seconds
    } else {
        match b {
            HealthCheckSpec::Http {
                path,
                host,
                method,
                interval_seconds,
                timeout_seconds,
                healthy_threshold,
                unhealthy_threshold,
                expected_statuses,
            } => {
                &&& (match a.path {
                    Some(p) => path@ == p@,
                    None => path@ == "/"@,
                })
                &&& opt_str_equiv(host, a.host)
                &&& opt_str_equiv(method, a.method)
                &&& interval_seconds == a.interval_seconds
                &&& timeout_seconds == a.timeout_seconds
                &&& healthy_threshold == a.healthy_threshold
                &&& unhealthy_threshold == a.unhealthy_threshold
                &&& opt_u32_vec_equiv(expected_statuses, a.expected_statuses)
            },
            _ => false,
        }
    }
}

pub open spec fn cb_thresholds_rel(
    a: CircuitBreakerThresholdsRequest,
    b: CircuitBreakerThresholdsSpec,
) -> bool {
    &&& b.max_connections == a.max_connections
    &&& b.max_pending_requests == a.max_pending_requests
    &&& b.max_requests == a.max_requests
    &&& b.max_retries == a.max_retries
}

pub open spec fn cb_rel(a: CircuitBreakersRequest, b: CircuitBreakersSpec) -> bool {
    &&& (match (a.default, b.default) {
        (Option::None, Option::None) => true,
        (Option::Some(x), Option::Some(y)) => cb_thresholds_rel(x, y),
        _ => false,
    })
    &&& (match (a.high, b.high) {
        (Option::None, Option::None) => true,
        (Option::Some(x), Option::Some(y)) => cb_thresholds_rel(x, y),
        _ => false,
    })
}

pub open spec fn od_rel(a: OutlierDetectionRequest, b: OutlierDetectionSpec) -> bool {
    &&& b.consecutive_5xx == a.consecutive_5xx
    &&& b.interval_seconds == a.interval_seconds
    &&& b.base_ejection_time_seconds == a.base_ejection_time_seconds
    &&& b.max_ejection_percent == a.max_ejection_percent
}

/// The canonical configuration of an accepted request, field by field.
pub open spec fn cluster_body_rel(b: CreateClusterBody, c: ClusterSpec) -> bool {
    &&& c.connect_timeout_seconds == b.connect_timeout_seconds
    &&& c.endpoints@.len() == b.endpoints@.len()
    &&& forall|i: int|
        0 <= i < b.endpoints@.len() ==> endpoint_req_rel(
            #[trigger] b.endpoints@[i],
            c.endpoints@[i],
        )
    &&& c.use_tls == b.use_tls
    &&& opt_str_equiv(c.tls_server_name, b.tls_server_name)
    &&& opt_str_equiv(c.dns_lookup_family, b.dns_lookup_family)
    &&& opt_str_equiv(c.lb_policy, b.lb_policy)
    &&& (match (b.circuit_breakers, c.circuit_breakers) {
        (Option::None, Option::None) => true,
        (Option::Some(x), Option::Some(y)) => cb_rel(x, y),
        _ => false,
    })
    &&& c.health_checks@.len() == b.health_checks@.len()
    &&& forall|i: int|
        0 <= i < b.health_checks@.len() ==> health_check_req_rel(
            #[trigger] b.health_checks@[i],
            c.health_checks@[i],
        )
    &&& (match (b.outlier_detection, c.outlier_detection) {
        (Option::None, Option::None) => true,
        (Option::Some(x), Option::Some(y)) => od_rel(x, y),
        _ => false,
    })
}

fn health_check_from_request(h: &HealthCheckRequest) -> (r: HealthCheckSpec)
    ensures
        health_check_req_rel(*h, r),
{
    if crate::text::eq_lit(&h.check_type, "tcp") {
        HealthCheckSpec::Tcp {
            interval_seconds: h.interval_seconds,
            timeout_seconds: h.timeout_seconds,
        }
    } else {
        let path: String = match &h.path {
            Some(p) => p.clone(),
            None => String::from_str("/"),
        };
        HealthCheckSpec::Http {
            path,
            host: dup_opt_string(&h.host),
            method: dup_opt_string(&h.method),
            interval_seconds: h.interval_seconds,
            timeout_seconds: h.timeout_seconds,
            healthy_threshold: h.healthy_threshold,
            unhealthy_threshold: h.unhealthy_threshold,
            expected_statuses: dup_opt_u32_vec(&h.expected_statuses),
        }
    }
}

/// Carries an accepted request to the canonical cluster configuration.
pub fn cluster_spec_from_body(b: &CreateClusterBody) -> (r: ClusterSpec)
    ensures
        cluster_body_rel(*b, r),
{
    let mut endpoints: Vec<EndpointSpec> = Vec::new();
    let mut i: usize = 0;
    while i < b.endpoints.len()
        invariant
            i <= b.endpoints@.len(),
            endpoints@.len() == i,
            forall|j: int|
                0 <= j < i ==> endpoint_req_rel(#[trigger] b.endpoints@[j], endpoints@[j]),
        decreases b.endpoints@.len() - i,
    {
        endpoints.push(
            EndpointSpec::Address { host: b.endpoints[i].host.clone(), port: b.endpoints[i].port },
        );
        i = i + 1;
    }
    let mut health_checks: Vec<HealthCheckSpec> = Vec::new();
    let mut i: usize = 0;
    while i < b.health_checks.len()
        invariant
            i <= b.health_checks@.len(),
            health_checks@.len() == i,
            forall|j: int|
                0 <= j < i ==> health_check_req_rel(
                    #[trigger] b.health_checks@[j],
                    health_checks@[j],
                ),
        decreases b.health_checks@.len() - i,
    {
        health_checks.push(health_check_from_request(&b.health_checks[i]));
        i = i + 1;
    }
    let circuit_breakers: Option<CircuitBreakersSpec> = match &b.circuit_breakers {
        Some(cb) => {
            let default = match cb.default {
                Some(t) => Some(
                    CircuitBreakerThresholdsSpec {
                        max_connections: t.max_connections,
                        max_pending_requests: t.max_pending_requests,
                        max_requests: t.max_requests,
                        max_retries: t.max_retries,
                    },
                ),
                None => None,
            };
            let high = match cb.high {
                Some(t) => Some(
                    CircuitBreakerThresholdsSpec {
                        max_connections: t.max_connections,
                        max_pending_requests: t.max_pending_requests,
                        max_requests: t.max_requests,
                        max_retries: t.max_retries,
                    },
                ),
                None => None,
            };
            Some(CircuitBreakersSpec { default, high })
        },
        None => None,
    };
    let outlier_detection: Option<OutlierDetectionSpec> = match b.outlier_detection {
        Some(od) => Some(
            OutlierDetectionSpec {
                consecutive_5xx: od.consecutive_5xx,
                interval_seconds: od.interval_seconds,
                base_ejection_time_seconds: od.base_ejection_time_seconds,
                max_ejection_percent: od.max_ejection_percent,
            },
        ),
        None => None,
    };
    ClusterSpec {
        connect_timeout_seconds: b.connect_timeout_seconds,
        endpoints,
        use_tls: b.use_tls,
        tls_server_name: dup_opt_string(&b.tls_server_name),
        dns_lookup_family: dup_opt_string(&b.dns_lookup_family),
        lb_policy: dup_opt_string(&b.lb_policy),
        circuit_breakers,
        health_checks,
        outlier_detection,
    }
}

} // verus!
