//! The route configuration model of the API surface: named virtual hosts,
//! path matches, header and query matches, and forward / weighted / redirect
//! actions.

use vstd::prelude::*;

use crate::scoped_config::{dup_filters, filters_equiv, ScopedFilterEntry};
use crate::text::opt_str_equiv;

verus! {

/// A route configuration as submitted to and returned by the API.
pub struct RouteDefinition {
    pub name: String,
    pub virtual_hosts: Vec<VirtualHostDefinition>,
}

pub struct VirtualHostDefinition {
    pub name: String,
    pub domains: Vec<String>,
    pub routes: Vec<RouteRuleDefinition>,
    pub typed_per_filter_config: Vec<ScopedFilterEntry>,
}

pub struct RouteRuleDefinition {
    pub name: Option<String>,
    pub route_match: RouteMatchDefinition,
    pub action: RouteActionDefinition,
    pub typed_per_filter_config: Vec<ScopedFilterEntry>,
}

pub struct RouteMatchDefinition {
    pub path: PathMatchDefinition,
    pub headers: Vec<HeaderMatchDefinition>,
    pub query_parameters: Vec<QueryParameterMatchDefinition>,
}

/// The path portion of a route match: one of four match styles.
pub enum PathMatchDefinition {
    Exact { value: String },
    Prefix { value: String },
    Regex { value: String },
    Template { template: String },
}

pub struct HeaderMatchDefinition {
    pub name: String,
    pub value: Option<String>,
    pub regex: Option<String>,
    pub present: Option<bool>,
}

pub struct QueryParameterMatchDefinition {
    pub name: String,
    pub value: Option<String>,
    pub regex: Option<String>,
    pub present: Option<bool>,
}

/// What a matching route does with the request.
pub enum RouteActionDefinition {
    Forward {
        cluster: String,
        timeout_seconds: Option<u64>,
        prefix_rewrite: Option<String>,
        template_rewrite: Option<String>,
    },
    Weighted { clusters: Vec<WeightedClusterDefinition>, total_weight: Option<u32> },
    Redirect {
        host_redirect: Option<String>,
        path_redirect: Option<String>,
        response_code: Option<u32>,
    },
}

pub struct WeightedClusterDefinition {
    pub name: String,
    pub weight: u32,
    pub typed_per_filter_config: Vec<ScopedFilterEntry>,
}

// === Equivalence, field by field ===

pub open spec fn path_match_equiv(a: PathMatchDefinition, b: PathMatchDefinition) -> bool {
    match (a, b) {
        (
            PathMatchDefinition::Exact { value: x },
            PathMatchDefinition::Exact { value: y },
        ) => x@ == y@,
        (
            PathMatchDefinition::Prefix { value: x },
            PathMatchDefinition::Prefix { value: y },
        ) => x@ == y@,
        (
            PathMatchDefinition::Regex { value: x },
            PathMatchDefinition::Regex { value: y },
        ) => x@ == y@,
        (
            PathMatchDefinition::Template { template: x },
            PathMatchDefinition::Template { template: y },
        ) => x@ == y@,
        _ => false,
    }
}

pub open spec fn header_match_equiv(a: HeaderMatchDefinition, b: HeaderMatchDefinition) -> bool {
    &&& a.name@ == b.name@
    &&& opt_str_equiv(a.value, b.value)
    &&& opt_str_equiv(a.regex, b.regex)
    &&& a.present == b.present
}

pub open spec fn query_param_equiv(
    a: QueryParameterMatchDefinition,
    b: QueryParameterMatchDefinition,
) -> bool {
    &&& a.name@ == b.name@
    &&& opt_str_equiv(a.value, b.value)
    &&& opt_str_equiv(a.regex, b.regex)
    &&& a.present == b.present
}

pub open spec fn weighted_cluster_equiv(
    a: WeightedClusterDefinition,
    b: WeightedClusterDefinition,
) -> bool {
    &&& a.name@ == b.name@
    &&& a.weight == b.weight
    &&& filters_equiv(a.typed_per_filter_config@, b.typed_per_filter_config@)
}

pub open spec fn route_match_equiv(a: RouteMatchDefinition, b: RouteMatchDefinition) -> bool {
    &&& path_match_equiv(a.path, b.path)
    &&& a.headers@.len() == b.headers@.len()
    &&& forall|i: int|
        0 <= i < a.headers@.len() ==> header_match_equiv(#[trigger] a.headers@[i], b.headers@[i])
    &&& a.query_parameters@.len() == b.query_parameters@.len()
    &&& forall|i: int|
        0 <= i < a.query_parameters@.len() ==> query_param_equiv(
            #[trigger] a.query_parameters@[i],
            b.query_parameters@[i],
        )
}

pub open spec fn route_action_equiv(a: RouteActionDefinition, b: RouteActionDefinition) -> bool {
    match (a, b) {
        (
            RouteActionDefinition::Forward {
                cluster: ac,
                timeout_seconds: at,
                prefix_rewrite: ap,
                template_rewrite: ar,
            },
            RouteActionDefinition::Forward {
                cluster: bc,
                timeout_seconds: bt,
                prefix_rewrite: bp,
                template_rewrite: br,
            },
        ) => ac@ == bc@ && at == bt && opt_str_equiv(ap, bp) && opt_str_equiv(ar, br),
        (
            RouteActionDefinition::Weighted { clusters: ac, total_weight: at },
            RouteActionDefinition::Weighted { clusters: bc, total_weight: bt },
        ) => {
            &&& ac@.len() == bc@.len()
            &&& forall|i: int|
                0 <= i < ac@.len() ==> weighted_cluster_equiv(#[trigger] ac@[i], bc@[i])
            &&& at == bt
        },
        (
            RouteActionDefinition::Redirect {
                host_redirect: ah,
                path_redirect: ap,
                response_code: ac,
            },
            RouteActionDefinition::Redirect {
                host_redirect: bh,
                path_redirect: bp,
                response_code: bc,
            },
        ) => opt_str_equiv(ah, bh) && opt_str_equiv(ap, bp) && ac == bc,
        _ => false,
    }
}

pub open spec fn route_rule_equiv(a: RouteRuleDefinition, b: RouteRuleDefinition) -> bool {
    &&& opt_str_equiv(a.name, b.name)
    &&& route_match_equiv(a.route_match, b.route_match)
    &&& route_action_equiv(a.action, b.action)
    &&& filters_equiv(a.typed_per_filter_config@, b.typed_per_filter_config@)
}

pub open spec fn virtual_host_equiv(a: VirtualHostDefinition, b: VirtualHostDefinition) -> bool {
    &&& a.name@ == b.name@
    &&& a.domains.deep_view() == b.domains.deep_view()
    &&& a.routes@.len() == b.routes@.len()
    &&& forall|i: int|
        0 <= i < a.routes@.len() ==> route_rule_equiv(#[trigger] a.routes@[i], b.routes@[i])
    &&& filters_equiv(a.typed_per_filter_config@, b.typed_per_filter_config@)
}

/// Field-wise equivalence of two route configurations.
pub open spec fn route_definition_equiv(a: RouteDefinition, b: RouteDefinition) -> bool {
    &&& a.name@ == b.name@
    &&& a.virtual_hosts@.len() == b.virtual_hosts@.len()
    &&& forall|i: int|
        0 <= i < a.virtual_hosts@.len() ==> virtual_host_equiv(
            #[trigger] a.virtual_hosts@[i],
            b.virtual_hosts@[i],
        )
}

// === Copies ===

impl HeaderMatchDefinition {
    pub fn duplicate(&self) -> (r: Self)
        ensures
            header_match_equiv(r, *self),
    {
        HeaderMatchDefinition {
            name: self.name.clone(),
            value: crate::text::dup_opt_string(&self.value),
            regex: crate::text::dup_opt_string(&self.regex),
            present: self.present,
        }
    }
}

impl QueryParameterMatchDefinition {
    pub fn duplicate(&self) -> (r: Self)
        ensures
            query_param_equiv(r, *self),
    {
        QueryParameterMatchDefinition {
            name: self.name.clone(),
            value: crate::text::dup_opt_string(&self.value),
            regex: crate::text::dup_opt_string(&self.regex),
            present: self.present,
        }
    }
}

impl PathMatchDefinition {
    pub fn duplicate(&self) -> (r: Self)
        ensures
            path_match_equiv(r, *self),
    {
        match self {
            PathMatchDefinition::Exact { value } => {
                PathMatchDefinition::Exact { value: value.clone() }
            },
            PathMatchDefinition::Prefix { value } => {
                PathMatchDefinition::Prefix { value: value.clone() }
            },
            PathMatchDefinition::Regex { value } => {
                PathMatchDefinition::Regex { value: value.clone() }
            },
            PathMatchDefinition::Template { template } => {
                PathMatchDefinition::Template { template: template.clone() }
            },
        }
    }
}

impl WeightedClusterDefinition {
    pub fn duplicate(&self) -> (r: Self)
        ensures
            weighted_cluster_equiv(r, *self),
            weighted_cluster_equiv(*self, r),
    {
        WeightedClusterDefinition {
            name: self.name.clone(),
            weight: self.weight,
            typed_per_filter_config: dup_filters(&self.typed_per_filter_config),
        }
    }
}

/// Copies a header-match list entry by entry.
pub fn dup_header_matches(v: &Vec<HeaderMatchDefinition>) -> (r: Vec<HeaderMatchDefinition>)
    ensures
        r@.len() == v@.len(),
        forall|i: int| 0 <= i < v@.len() ==> header_match_equiv(#[trigger] r@[i], v@[i]),
{
    let mut out: Vec<HeaderMatchDefinition> = Vec::new();
    let mut i: usize = 0;
    while i < v.len()
        invariant
            i <= v@.len(),
            out@.len() == i,
            forall|j: int| 0 <= j < i ==> header_match_equiv(#[trigger] out@[j], v@[j]),
        decreases v@.len() - i,
    {
        out.push(v[i].duplicate());
        i = i + 1;
    }
    out
}

/// Copies a query-parameter-match list entry by entry.
pub fn dup_query_params(
    v: &Vec<QueryParameterMatchDefinition>,
) -> (r: Vec<QueryParameterMatchDefinition>)
    ensures
        r@.len() == v@.len(),
        forall|i: int| 0 <= i < v@.len() ==> query_param_equiv(#[trigger] r@[i], v@[i]),
{
    let mut out: Vec<QueryParameterMatchDefinition> = Vec::new();
    let mut i: usize = 0;
    while i < v.len()
        invariant
            i <= v@.len(),
            out@.len() == i,
            forall|j: int| 0 <= j < i ==> query_param_equiv(#[trigger] out@[j], v@[j]),
        decreases v@.len() - i,
    {
        out.push(v[i].duplicate());
        i = i + 1;
    }
    out
}

/// Copies a weighted-cluster list entry by entry.
pub fn dup_weighted_clusters(
    v: &Vec<WeightedClusterDefinition>,
) -> (r: Vec<WeightedClusterDefinition>)
    ensures
        r@.len() == v@.len(),
        forall|i: int| 0 <= i < v@.len() ==> weighted_cluster_equiv(#[trigger] r@[i], v@[i]),
        forall|i: int| 0 <= i < v@.len() ==> weighted_cluster_equiv(#[trigger] v@[i], r@[i]),
{
    let mut out: Vec<WeightedClusterDefinition> = Vec::new();
    let mut i: usize = 0;
    while i < v.len()
        invariant
            i <= v@.len(),
            out@.len() == i,
            forall|j: int| 0 <= j < i ==> weighted_cluster_equiv(#[trigger] out@[j], v@[j]),
            forall|j: int| 0 <= j < i ==> weighted_cluster_equiv(#[trigger] v@[j], out@[j]),
        decreases v@.len() - i,
    {
        out.push(v[i].duplicate());
        i = i + 1;
    }
    out
}

} // verus!
