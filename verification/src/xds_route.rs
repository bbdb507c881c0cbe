//! The canonical (wire-shaped) form of a route configuration, the total
//! conversion pair between it and the API model, and the round-trip law: a
//! configuration carried to the canonical form and back is field-wise
//! equivalent to the original.

use vstd::prelude::*;

use crate::errors::ApiError;
use crate::route_model::{
    header_match_equiv, path_match_equiv, query_param_equiv, route_action_equiv,
    route_definition_equiv, route_match_equiv, route_rule_equiv, virtual_host_equiv,
    weighted_cluster_equiv, dup_header_matches, dup_query_params, dup_weighted_clusters,
    HeaderMatchDefinition, PathMatchDefinition, QueryParameterMatchDefinition, RouteDefinition,
    RouteActionDefinition, RouteMatchDefinition, RouteRuleDefinition, VirtualHostDefinition,
    WeightedClusterDefinition,
};
use crate::scoped_config::{dup_filters, filters_equiv, ScopedFilterEntry};
use crate::text::{dup_opt_string, dup_vec_string, opt_str_equiv};

verus! {

/// The canonical form of a route configuration, as persisted and served.
pub struct RouteConfig {
    pub name: String,
    pub virtual_hosts: Vec<VirtualHostConfig>,
}

pub struct VirtualHostConfig {
    pub name: String,
    pub domains: Vec<String>,
    pub routes: Vec<RouteRule>,
    pub typed_per_filter_config: Vec<ScopedFilterEntry>,
}

pub struct RouteRule {
    pub name: Option<String>,
    pub route_match: RouteMatchConfig,
    pub action: RouteActionConfig,
    pub typed_per_filter_config: Vec<ScopedFilterEntry>,
}

/// The canonical route match: absent header and query lists are `None`
/// rather than empty.
pub struct RouteMatchConfig {
    pub path: PathMatchDefinition,
    pub headers: Option<Vec<HeaderMatchDefinition>>,
    pub query_parameters: Option<Vec<QueryParameterMatchDefinition>>,
}

pub enum RouteActionConfig {
    Cluster {
        name: String,
        timeout: Option<u64>,
        prefix_rewrite: Option<String>,
        path_template_rewrite: Option<String>,
    },
    WeightedClusters { clusters: Vec<WeightedClusterDefinition>, total_weight: Option<u32> },
    Redirect {
        host_redirect: Option<String>,
        path_redirect: Option<String>,
        response_code: Option<u32>,
    },
}

// === The conversion relation, field by field ===

pub open spec fn route_match_rel(a: RouteMatchDefinition, b: RouteMatchConfig) -> bool {
    &&& path_match_equiv(a.path, b.path)
    &&& match b.headers {
        Option::None => a.headers@.len() == 0,
        Option::Some(h) => {
            &&& a.headers@.len() == h@.len()
            &&& forall|i: int|
                0 <= i < h@.len() ==> header_match_equiv(#[trigger] a.headers@[i], h@[i])
        },
    }
    &&& match b.query_parameters {
        Option::None => a.query_parameters@.len() == 0,
        Option::Some(q) => {
            &&& a.query_parameters@.len() == q@.len()
            &&& forall|i: int|
                0 <= i < q@.len() ==> query_param_equiv(#[trigger] a.query_parameters@[i], q@[i])
        },
    }
}

pub open spec fn route_action_rel(a: RouteActionDefinition, b: RouteActionConfig) -> bool {
    match (a, b) {
        (
            RouteActionDefinition::Forward {
                cluster: ac,
                timeout_seconds: at,
                prefix_rewrite: ap,
                template_rewrite: ar,
            },
            RouteActionConfig::Cluster {
                name: bn,
                timeout: bt,
                prefix_rewrite: bp,
                path_template_rewrite: br,
            },
        ) => ac@ == bn@ && at == bt && opt_str_equiv(ap, bp) && opt_str_equiv(ar, br),
        (
            RouteActionDefinition::Weighted { clusters: ac, total_weight: at },
            RouteActionConfig::WeightedClusters { clusters: bc, total_weight: bt },
        ) => {
            &&& ac@.len() == bc@.len()
            &&& forall|i: int|
                0 <= i < ac@.len() ==> weighted_cluster_equiv(#[trigger] ac@[i], bc@[i])
            &&& at == bt
        },
        (
            RouteActionDefinition::Redirect {
                host_redirect: ah,
                path_redirect: ap,
                response_code: ac,
            },
            RouteActionConfig::Redirect {
                host_redirect: bh,
                path_redirect: bp,
                response_code: bc,
            },
        ) => opt_str_equiv(ah, bh) && opt_str_equiv(ap, bp) && ac == bc,
        _ => false,
    }
}

pub open spec fn route_rule_rel(a: RouteRuleDefinition, b: RouteRule) -> bool {
    &&& opt_str_equiv(a.name, b.name)
    &&& route_match_rel(a.route_match, b.route_match)
    &&& route_action_rel(a.action, b.action)
    &&& filters_equiv(a.typed_per_filter_config@, b.typed_per_filter_config@)
}

pub open spec fn virtual_host_rel(a: VirtualHostDefinition, b: VirtualHostConfig) -> bool {
    &&& a.name@ == b.name@
    &&& a.domains.deep_view() == b.domains.deep_view()
    &&& a.routes@.len() == b.routes@.len()
    &&& forall|i: int| 0 <= i < a.routes@.len() ==> route_rule_rel(#[trigger] a.routes@[i], b.routes@[i])
    &&& filters_equiv(a.typed_per_filter_config@, b.typed_per_filter_config@)
}

/// The conversion relation between an API route configuration and its
/// canonical form.
pub open spec fn route_config_rel(a: RouteDefinition, b: RouteConfig) -> bool {
    &&& a.name@ == b.name@
    &&& a.virtual_hosts@.len() == b.virtual_hosts@.len()
    &&& forall|i: int|
        0 <= i < a.virtual_hosts@.len() ==> virtual_host_rel(
            #[trigger] a.virtual_hosts@[i],
            b.virtual_hosts@[i],
        )
}

// === What the canonical form can hold ===

/// A weighted action without cluster entries has no canonical form.
pub open spec fn action_encodable(a: RouteActionDefinition) -> bool {
    match a {
        RouteActionDefinition::Weighted { clusters, .. } => clusters@.len() > 0,
        _ => true,
    }
}

pub open spec fn virtual_host_encodable(v: VirtualHostDefinition) -> bool {
    forall|i: int| 0 <= i < v.routes@.len() ==> action_encodable((#[trigger] v.routes@[i]).action)
}

pub open spec fn route_definition_encodable(d: RouteDefinition) -> bool {
    forall|i: int|
        0 <= i < d.virtual_hosts@.len() ==> virtual_host_encodable(#[trigger] d.virtual_hosts@[i])
}

// === Conversions ===

impl RouteMatchDefinition {
    /// Carries a route match to its canonical form.
    pub fn to_xds_config(&self) -> (r: RouteMatchConfig)
        ensures
            route_match_rel(*self, r),
            self.headers@.len() == 0 <==> r.headers is None,
            self.query_parameters@.len() == 0 <==> r.query_parameters is None,
    {
        let headers: Option<Vec<HeaderMatchDefinition>> = if self.headers.len() == 0 {
            Option::None
        } else {
            Option::Some(dup_header_matches(&self.headers))
        };
        let query_parameters: Option<Vec<QueryParameterMatchDefinition>> = if self
            .query_parameters
            .len() == 0 {
            Option::None
        } else {
            Option::Some(dup_query_params(&self.query_parameters))
        };
        RouteMatchConfig { path: self.path.duplicate(), headers, query_parameters }
    }

    /// Recovers the API shape of a canonical route match.
    pub fn from_xds_config(config: &RouteMatchConfig) -> (r: RouteMatchDefinition)
        ensures
            route_match_rel(r, *config),
    {
        let headers: Vec<HeaderMatchDefinition> = match &config.headers {
            Option::Some(h) => dup_header_matches(h),
            Option::None => Vec::new(),
        };
        let query_parameters: Vec<QueryParameterMatchDefinition> = match &config.query_parameters {
            Option::Some(q) => dup_query_params(q),
            Option::None => Vec::new(),
        };
        RouteMatchDefinition { path: config.path.duplicate(), headers, query_parameters }
    }
}

impl RouteActionDefinition {
    /// Carries a route action to its canonical form; a weighted action must
    /// name at least one cluster.
    pub fn to_xds_config(&self) -> (r: Result<RouteActionConfig, ApiError>)
        ensures
            r matches Ok(b) ==> route_action_rel(*self, b),
            r is Ok <==> action_encodable(*self),
            r matches Err(e) ==> e is Validation,
    {
        match self {
            RouteActionDefinition::Forward {
                cluster,
                timeout_seconds,
                prefix_rewrite,
                template_rewrite,
            } => Ok(
                RouteActionConfig::Cluster {
                    name: cluster.clone(),
                    timeout: *timeout_seconds,
                    prefix_rewrite: dup_opt_string(prefix_rewrite),
                    path_template_rewrite: dup_opt_string(template_rewrite),
                },
            ),
            RouteActionDefinition::Weighted { clusters, total_weight } => {
                if clusters.len() == 0 {
                    Err(
                        crate::errors::validation_error(
                            "Weighted route must include at least one cluster",
                        ),
                    )
                } else {
                    Ok(
                        RouteActionConfig::WeightedClusters {
                            clusters: dup_weighted_clusters(clusters),
                            total_weight: *total_weight,
                        },
                    )
                }
            },
            RouteActionDefinition::Redirect { host_redirect, path_redirect, response_code } => {
                Ok(
                    RouteActionConfig::Redirect {
                        host_redirect: dup_opt_string(host_redirect),
                        path_redirect: dup_opt_string(path_redirect),
                        response_code: *response_code,
                    },
                )
            },
        }
    }

    /// Recovers the API shape of a canonical route action.
    pub fn from_xds_config(config: &RouteActionConfig) -> (r: RouteActionDefinition)
        ensures
            route_action_rel(r, *config),
    {
        match config {
            RouteActionConfig::Cluster { name, timeout, prefix_rewrite, path_template_rewrite } => {
                RouteActionDefinition::Forward {
                    cluster: name.clone(),
                    timeout_seconds: *timeout,
                    prefix_rewrite: dup_opt_string(prefix_rewrite),
                    template_rewrite: dup_opt_string(path_template_rewrite),
                }
            },
            RouteActionConfig::WeightedClusters { clusters, total_weight } => {
                RouteActionDefinition::Weighted {
                    clusters: dup_weighted_clusters(clusters),
                    total_weight: *total_weight,
                }
            },
            RouteActionConfig::Redirect { host_redirect, path_redirect, response_code } => {
                RouteActionDefinition::Redirect {
                    host_redirect: dup_opt_string(host_redirect),
                    path_redirect: dup_opt_string(path_redirect),
                    response_code: *response_code,
                }
            },
        }
    }
}

impl RouteRuleDefinition {
    /// Carries a route rule to its canonical form.
    pub fn to_xds_config(&self) -> (r: Result<RouteRule, ApiError>)
        ensures
            r matches Ok(b) ==> route_rule_rel(*self, b),
            r is Ok <==> action_encodable(self.action),
            r matches Err(e) ==> e is Validation,
    {
        let action = match self.action.to_xds_config() {
            Ok(a) => a,
            Err(e) => {
                return Err(e);
            },
        };
        Ok(
            RouteRule {
                name: dup_opt_string(&self.name),
                route_match: self.route_match.to_xds_config(),
                action,
                typed_per_filter_config: dup_filters(&self.typed_per_filter_config),
            },
        )
    }

    /// Recovers the API shape of a canonical route rule.
    pub fn from_xds_config(config: &RouteRule) -> (r: RouteRuleDefinition)
        ensures
            route_rule_rel(r, *config),
    {
        RouteRuleDefinition {
            name: dup_opt_string(&config.name),
            route_match: RouteMatchDefinition::from_xds_config(&config.route_match),
            action: RouteActionDefinition::from_xds_config(&config.action),
            typed_per_filter_config: dup_filters(&config.typed_per_filter_config),
        }
    }
}

impl VirtualHostDefinition {
    /// Carries a virtual host to its canonical form.
    pub fn to_xds_config(&self) -> (r: Result<VirtualHostConfig, ApiError>)
        ensures
            r matches Ok(b) ==> virtual_host_rel(*self, b),
            r is Ok <==> virtual_host_encodable(*self),
            r matches Err(e) ==> e is Validation,
    {
        let n = self.routes.len();
        let mut routes: Vec<RouteRule> = Vec::new();
        let mut i: usize = 0;
        while i < n
            invariant
                i <= n,
                n == self.routes@.len(),
                routes@.len() == i,
                forall|j: int|
                    0 <= j < i ==> route_rule_rel(#[trigger] self.routes@[j], routes@[j]),
                forall|j: int| 0 <= j < i ==> action_encodable((#[trigger] self.routes@[j]).action),
            decreases n - i,
        {
            match self.routes[i].to_xds_config() {
                Ok(rule) => {
                    routes.push(rule);
                },
                Err(e) => {
                    assert(!action_encodable(self.routes@[i as int].action));
                    return Err(e);
                },
            }
            i = i + 1;
        }
        Ok(
            VirtualHostConfig {
                name: self.name.clone(),
                domains: dup_vec_string(&self.domains),
                routes,
                typed_per_filter_config: dup_filters(&self.typed_per_filter_config),
            },
        )
    }

    /// Recovers the API shape of a canonical virtual host.
    pub fn from_xds_config(config: &VirtualHostConfig) -> (r: VirtualHostDefinition)
        ensures
            virtual_host_rel(r, *config),
    {
        let n = config.routes.len();
        let mut routes: Vec<RouteRuleDefinition> = Vec::new();
        let mut i: usize = 0;
        while i < n
            invariant
                i <= n,
                n == config.routes@.len(),
                routes@.len() == i,
                forall|j: int|
                    0 <= j < i ==> route_rule_rel(#[trigger] routes@[j], config.routes@[j]),
            decreases n - i,
        {
            routes.push(RouteRuleDefinition::from_xds_config(&config.routes[i]));
            i = i + 1;
        }
        VirtualHostDefinition {
            name: config.name.clone(),
            domains: dup_vec_string(&config.domains),
            routes,
            typed_per_filter_config: dup_filters(&config.typed_per_filter_config),
        }
    }
}

impl RouteDefinition {
    /// Carries a route configuration to its canonical form.
    pub fn to_xds_config(&self) -> (r: Result<RouteConfig, ApiError>)
        ensures
            r matches Ok(b) ==> route_config_rel(*self, b),
            r is Ok <==> route_definition_encodable(*self),
            r matches Err(e) ==> e is Validation,
    {
        let n = self.virtual_hosts.len();
        let mut virtual_hosts: Vec<VirtualHostConfig> = Vec::new();
        let mut i: usize = 0;
        while i < n
            invariant
                i <= n,
                n == self.virtual_hosts@.len(),
                virtual_hosts@.len() == i,
                forall|j: int|
                    0 <= j < i ==> virtual_host_rel(
                        #[trigger] self.virtual_hosts@[j],
                        virtual_hosts@[j],
                    ),
                forall|j: int|
                    0 <= j < i ==> virtual_host_encodable(#[trigger] self.virtual_hosts@[j]),
            decreases n - i,
        {
            match self.virtual_hosts[i].to_xds_config() {
                Ok(vh) => {
                    virtual_hosts.push(vh);
                },
                Err(e) => {
                    assert(!virtual_host_encodable(self.virtual_hosts@[i as int]));
                    return Err(e);
                },
            }
            i = i + 1;
        }
        Ok(RouteConfig { name: self.name.clone(), virtual_hosts })
    }

    /// Recovers the API shape of a canonical route configuration.
    pub fn from_xds_config(config: &RouteConfig) -> (r: RouteDefinition)
        ensures
            route_config_rel(r, *config),
    {
        let n = config.virtual_hosts.len();
        let mut virtual_hosts: Vec<VirtualHostDefinition> = Vec::new();
        let mut i: usize = 0;
        while i < n
            invariant
                i <= n,
                n == config.virtual_hosts@.len(),
                virtual_hosts@.len() == i,
                forall|j: int|
                    0 <= j < i ==> virtual_host_rel(
                        #[trigger] virtual_hosts@[j],
                        config.virtual_hosts@[j],
                    ),
            decreases n - i,
        {
            virtual_hosts.push(VirtualHostDefinition::from_xds_config(&config.virtual_hosts[i]));
            i = i + 1;
        }
        RouteDefinition { name: config.name.clone(), virtual_hosts }
    }
}

// === The round-trip law ===

proof fn lemma_match_rel_inj(a: RouteMatchDefinition, a2: RouteMatchDefinition, b: RouteMatchConfig)
    requires
        route_match_rel(a, b),
        route_match_rel(a2, b),
    ensures
        route_match_equiv(a2, a),
{
}

proof fn lemma_action_rel_inj(
    a: RouteActionDefinition,
    a2: RouteActionDefinition,
    b: RouteActionConfig,
)
    requires
        route_action_rel(a, b),
        route_action_rel(a2, b),
    ensures
        route_action_equiv(a2, a),
{
    match (a, a2, b) {
        (
            RouteActionDefinition::Weighted { clusters: ac, .. },
            RouteActionDefinition::Weighted { clusters: a2c, .. },
            RouteActionConfig::WeightedClusters { clusters: bc, .. },
        ) => {
            assert forall|i: int| 0 <= i < a2c@.len() implies weighted_cluster_equiv(
                #[trigger] a2c@[i],
                ac@[i],
            ) by {
                crate::scoped_config::lemma_filters_equiv_sym(
                    ac@[i].typed_per_filter_config@,
                    bc@[i].typed_per_filter_config@,
                );
                crate::scoped_config::lemma_filters_equiv_trans(
                    a2c@[i].typed_per_filter_config@,
                    bc@[i].typed_per_filter_config@,
                    ac@[i].typed_per_filter_config@,
                );
            }
        },
        _ => {},
    }
}

proof fn lemma_rule_rel_inj(a: RouteRuleDefinition, a2: RouteRuleDefinition, b: RouteRule)
    requires
        route_rule_rel(a, b),
        route_rule_rel(a2, b),
    ensures
        route_rule_equiv(a2, a),
{
    lemma_match_rel_inj(a.route_match, a2.route_match, b.route_match);
    lemma_action_rel_inj(a.action, a2.action, b.action);
    crate::scoped_config::lemma_filters_equiv_sym(
        a.typed_per_filter_config@,
        b.typed_per_filter_config@,
    );
    crate::scoped_config::lemma_filters_equiv_trans(
        a2.typed_per_filter_config@,
        b.typed_per_filter_config@,
        a.typed_per_filter_config@,
    );
}

proof fn lemma_vh_rel_inj(a: VirtualHostDefinition, a2: VirtualHostDefinition, b: VirtualHostConfig)
    requires
        virtual_host_rel(a, b),
        virtual_host_rel(a2, b),
    ensures
        virtual_host_equiv(a2, a),
{
    assert forall|i: int| 0 <= i < a2.routes@.len() implies route_rule_equiv(
        #[trigger] a2.routes@[i],
        a.routes@[i],
    ) by {
        lemma_rule_rel_inj(a.routes@[i], a2.routes@[i], b.routes@[i]);
    }
    crate::scoped_config::lemma_filters_equiv_sym(
        a.typed_per_filter_config@,
        b.typed_per_filter_config@,
    );
    crate::scoped_config::lemma_filters_equiv_trans(
        a2.typed_per_filter_config@,
        b.typed_per_filter_config@,
        a.typed_per_filter_config@,
    );
}

/// Round trip: any two API-shaped configurations that convert to the same
/// canonical form are field-wise equivalent.  In particular, for every valid
/// configuration `d` whose canonical form is `c`, recovering the API shape of
/// `c` yields a configuration equivalent to `d`.
pub proof fn lemma_route_config_round_trip(d: RouteDefinition, c: RouteConfig, d2: RouteDefinition)
    requires
        route_config_rel(d, c),
        route_config_rel(d2, c),
    ensures
        route_definition_equiv(d2, d),
{
    assert forall|i: int| 0 <= i < d2.virtual_hosts@.len() implies virtual_host_equiv(
        #[trigger] d2.virtual_hosts@[i],
        d.virtual_hosts@[i],
    ) by {
        lemma_vh_rel_inj(d.virtual_hosts@[i], d2.virtual_hosts@[i], c.virtual_hosts@[i]);
    }
}


// === Equivalence and copies of the canonical form ===

pub open spec fn route_match_config_equiv(a: RouteMatchConfig, b: RouteMatchConfig) -> bool {
    &&& path_match_equiv(a.path, b.path)
    &&& match (a.headers, b.headers) {
        (Option::None, Option::None) => true,
        (Option::Some(x), Option::Some(y)) => x@.len() == y@.len() && forall|i: int|
            0 <= i < x@.len() ==> header_match_equiv(#[trigger] x@[i], y@[i]),
        _ => false,
    }
    &&& match (a.query_parameters, b.query_parameters) {
        (Option::None, Option::None) => true,
        (Option::Some(x), Option::Some(y)) => x@.len() == y@.len() && forall|i: int|
            0 <= i < x@.len() ==> query_param_equiv(#[trigger] x@[i], y@[i]),
        _ => false,
    }
}

pub open spec fn route_action_config_equiv(a: RouteActionConfig, b: RouteActionConfig) -> bool {
    match (a, b) {
        (
            RouteActionConfig::Cluster {
                name: an,
                timeout: at,
                prefix_rewrite: ap,
                path_template_rewrite: ar,
            },
            RouteActionConfig::Cluster {
                name: bn,
                timeout: bt,
                prefix_rewrite: bp,
                path_template_rewrite: br,
            },
        ) => an@ == bn@ && at == bt && opt_str_equiv(ap, bp) && opt_str_equiv(ar, br),
        (
            RouteActionConfig::WeightedClusters { clusters: ac, total_weight: at },
            RouteActionConfig::WeightedClusters { clusters: bc, total_weight: bt },
        ) => {
            &&& ac@.len() == bc@.len()
            &&& forall|i: int|
                0 <= i < ac@.len() ==> weighted_cluster_equiv(#[trigger] ac@[i], bc@[i])
            &&& at == bt
        },
        (
            RouteActionConfig::Redirect {
                host_redirect: ah,
                path_redirect: ap,
                response_code: ac,
            },
            RouteActionConfig::Redirect {
                host_redirect: bh,
                path_redirect: bp,
                response_code: bc,
            },
        ) => opt_str_equiv(ah, bh) && opt_str_equiv(ap, bp) && ac == bc,
        _ => false,
    }
}

pub open spec fn route_rule_config_equiv(a: RouteRule, b: RouteRule) -> bool {
    &&& opt_str_equiv(a.name, b.name)
    &&& route_match_config_equiv(a.route_match, b.route_match)
    &&& route_action_config_equiv(a.action, b.action)
    &&& filters_equiv(a.typed_per_filter_config@, b.typed_per_filter_config@)
}

pub open spec fn virtual_host_config_equiv(a: VirtualHostConfig, b: VirtualHostConfig) -> bool {
    &&& a.name@ == b.name@
    &&& a.domains.deep_view() == b.domains.deep_view()
    &&& a.routes@.len() == b.routes@.len()
    &&& forall|i: int|
        0 <= i < a.routes@.len() ==> route_rule_config_equiv(#[trigger] a.routes@[i], b.routes@[i])
    &&& filters_equiv(a.typed_per_filter_config@, b.typed_per_filter_config@)
}

/// Field-wise equivalence of two canonical route configurations.
pub open spec fn route_config_equiv(a: RouteConfig, b: RouteConfig) -> bool {
    &&& a.name@ == b.name@
    &&& a.virtual_hosts@.len() == b.virtual_hosts@.len()
    &&& forall|i: int|
        0 <= i < a.virtual_hosts@.len() ==> virtual_host_config_equiv(
            #[trigger] a.virtual_hosts@[i],
            b.virtual_hosts@[i],
        )
}

impl RouteMatchConfig {
    pub fn duplicate(&self) -> (r: Self)
        ensures
            route_match_config_equiv(r, *self),
    {
        let headers: Option<Vec<HeaderMatchDefinition>> = match &self.headers {
            Option::Some(h) => Option::Some(dup_header_matches(h)),
            Option::None => Option::None,
        };
        let query_parameters: Option<Vec<QueryParameterMatchDefinition>> = match &self
            .query_parameters {
            Option::Some(q) => Option::Some(dup_query_params(q)),
            Option::None => Option::None,
        };
        RouteMatchConfig { path: self.path.duplicate(), headers, query_parameters }
    }
}

impl RouteActionConfig {
    pub fn duplicate(&self) -> (r: Self)
        ensures
            route_action_config_equiv(r, *self),
    {
        match self {
            RouteActionConfig::Cluster { name, timeout, prefix_rewrite, path_template_rewrite } => {
                RouteActionConfig::Cluster {
                    name: name.clone(),
                    timeout: *timeout,
                    prefix_rewrite: dup_opt_string(prefix_rewrite),
                    path_template_rewrite: dup_opt_string(path_template_rewrite),
                }
            },
            RouteActionConfig::WeightedClusters { clusters, total_weight } => {
                RouteActionConfig::WeightedClusters {
                    clusters: dup_weighted_clusters(clusters),
                    total_weight: *total_weight,
                }
            },
            RouteActionConfig::Redirect { host_redirect, path_redirect, response_code } => {
                RouteActionConfig::Redirect {
                    host_redirect: dup_opt_string(host_redirect),
                    path_redirect: dup_opt_string(path_redirect),
                    response_code: *response_code,
                }
            },
        }
    }
}

impl RouteRule {
    pub fn duplicate(&self) -> (r: Self)
        ensures
            route_rule_config_equiv(r, *self),
    {
        RouteRule {
            name: dup_opt_string(&self.name),
            route_match: self.route_match.duplicate(),
            action: self.action.duplicate(),
            typed_per_filter_config: dup_filters(&self.typed_per_filter_config),
        }
    }
}

impl VirtualHostConfig {
    pub fn duplicate(&self) -> (r: Self)
        ensures
            virtual_host_config_equiv(r, *self),
    {
        let n = self.routes.len();
        let mut routes: Vec<RouteRule> = Vec::new();
        let mut i: usize = 0;
        while i < n
            invariant
                i <= n,
                n == self.routes@.len(),
                routes@.len() == i,
                forall|j: int|
                    0 <= j < i ==> route_rule_config_equiv(#[trigger] routes@[j], self.routes@[j]),
            decreases n - i,
        {
            routes.push(self.routes[i].duplicate());
            i = i + 1;
        }
        VirtualHostConfig {
            name: self.name.clone(),
            domains: dup_vec_string(&self.domains),
            routes,
            typed_per_filter_config: dup_filters(&self.typed_per_filter_config),
        }
    }
}

impl RouteConfig {
    /// Builds an equivalent copy of the canonical configuration.
    pub fn duplicate(&self) -> (r: Self)
        ensures
            route_config_equiv(r, *self),
    {
        let n = self.virtual_hosts.len();
        let mut virtual_hosts: Vec<VirtualHostConfig> = Vec::new();
        let mut i: usize = 0;
        while i < n
            invariant
                i <= n,
                n == self.virtual_hosts@.len(),
                virtual_hosts@.len() == i,
                forall|j: int|
                    0 <= j < i ==> virtual_host_config_equiv(
                        #[trigger] virtual_hosts@[j],
                        self.virtual_hosts@[j],
                    ),
            decreases n - i,
        {
            virtual_hosts.push(self.virtual_hosts[i].duplicate());
            i = i + 1;
        }
        RouteConfig { name: self.name.clone(), virtual_hosts }
    }
}

} // verus!
