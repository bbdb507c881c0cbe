//! Validation of route configuration payloads: field constraints, the
//! cross-field rules between template path matches and rewrites, the
//! wire-encoding smoke test for URI templates, and the stored summary of a
//! configuration.

use vstd::prelude::*;

use envoy_types::pb::envoy::extensions::path::rewrite::uri_template::v3::UriTemplateRewriteConfig;
use prost::Message;

use crate::errors::{validation_error, ApiError};
use crate::route_model::{
    PathMatchDefinition, RouteActionDefinition, RouteDefinition, RouteMatchDefinition,
    RouteRuleDefinition, VirtualHostDefinition,
};
use crate::text::{is_blank, spec_is_blank};
use crate::xds_route::{RouteActionConfig, RouteConfig, RouteRule, VirtualHostConfig};

verus! {

/// The protobuf encoding of a URI template, as the proxy receives it.  The
/// bytes are a function of the template alone.
pub uninterp spec fn uri_template_encoding(t: Seq<char>) -> Seq<u8>;

/// Relies on prost's `Message::encode_to_vec` for envoy's
/// `UriTemplateRewriteConfig`, a message holding one string field: the
/// protobuf encoding of the template, a deterministic function of the
/// template string alone.
#[verifier::external_body]
fn uri_template_wire_bytes(template: &str) -> (r: Vec<u8>)
    ensures
        r@ == uri_template_encoding(template@),
{
    let config = UriTemplateRewriteConfig { path_template_rewrite: template.to_string() };
    config.encode_to_vec()
}

/// A URI template is accepted when its wire encoding is non-empty.
pub fn ensure_valid_uri_template(template: &str) -> (r: Result<(), ApiError>)
    ensures
        r is Ok <==> uri_template_encoding(template@).len() > 0,
        r matches Err(e) ==> e is Validation,
{
    let bytes = uri_template_wire_bytes(template);
    if bytes.len() == 0 {
        Err(validation_error("Invalid URI template"))
    } else {
        Ok(())
    }
}

// === Validity, clause by clause ===

pub open spec fn path_match_valid(p: PathMatchDefinition) -> bool {
    match p {
        PathMatchDefinition::Exact { value } => !spec_is_blank(value@),
        PathMatchDefinition::Prefix { value } => !spec_is_blank(value@),
        PathMatchDefinition::Regex { value } => !spec_is_blank(value@),
        PathMatchDefinition::Template { template } => {
            !spec_is_blank(template@) && uri_template_encoding(template@).len() > 0
        },
    }
}

pub open spec fn route_match_valid(m: RouteMatchDefinition) -> bool {
    &&& path_match_valid(m.path)
    &&& forall|i: int|
        0 <= i < m.headers@.len() ==> !spec_is_blank((#[trigger] m.headers@[i]).name@)
    &&& forall|i: int|
        0 <= i < m.query_parameters@.len() ==> !spec_is_blank(
            (#[trigger] m.query_parameters@[i]).name@,
        )
}

pub open spec fn route_action_valid(a: RouteActionDefinition) -> bool {
    match a {
        RouteActionDefinition::Forward { cluster, prefix_rewrite, template_rewrite, .. } => {
            &&& !spec_is_blank(cluster@)
            &&& (prefix_rewrite matches Some(p) ==> p@.len() > 0 && p@[0] == '/')
            &&& (template_rewrite matches Some(t) ==> !spec_is_blank(t@)
                && uri_template_encoding(t@).len() > 0)
        },
        RouteActionDefinition::Weighted { clusters, .. } => {
            &&& clusters@.len() > 0
            &&& forall|i: int|
                0 <= i < clusters@.len() ==> !spec_is_blank((#[trigger] clusters@[i]).name@)
            &&& forall|i: int| 0 <= i < clusters@.len() ==> (#[trigger] clusters@[i]).weight > 0
        },
        RouteActionDefinition::Redirect { host_redirect, path_redirect, .. } => {
            &&& (host_redirect matches Some(h) ==> !spec_is_blank(h@))
            &&& (path_redirect matches Some(p) ==> !spec_is_blank(p@))
        },
    }
}

/// The cross-field rules: a template path match forbids `prefixRewrite` and
/// must pair with a forward action; `templateRewrite` requires a template
/// path match.
pub open spec fn route_rule_cross_valid(r: RouteRuleDefinition) -> bool {
    match (r.route_match.path, r.action) {
        (
            PathMatchDefinition::Template { .. },
            RouteActionDefinition::Forward { prefix_rewrite: Some(_), .. },
        ) => false,
        (PathMatchDefinition::Template { .. }, RouteActionDefinition::Forward { .. }) => true,
        (PathMatchDefinition::Template { .. }, _) => false,
        (_, RouteActionDefinition::Forward { template_rewrite: Some(_), .. }) => false,
        _ => true,
    }
}

pub open spec fn route_rule_valid(r: RouteRuleDefinition) -> bool {
    &&& (r.name matches Some(n) ==> 1 <= n@.len() <= 100)
    &&& route_match_valid(r.route_match)
    &&& route_action_valid(r.action)
    &&& route_rule_cross_valid(r)
}

pub open spec fn virtual_host_valid(v: VirtualHostDefinition) -> bool {
    &&& 1 <= v.name@.len() <= 100
    &&& v.domains@.len() >= 1
    &&& v.routes@.len() >= 1
    &&& forall|i: int| 0 <= i < v.domains@.len() ==> !spec_is_blank((#[trigger] v.domains@[i])@)
    &&& forall|i: int| 0 <= i < v.routes@.len() ==> route_rule_valid(#[trigger] v.routes@[i])
}

/// Everything the API checks before a route configuration is accepted.
pub open spec fn route_payload_valid(d: RouteDefinition) -> bool {
    &&& 1 <= d.name@.len() <= 100
    &&& d.virtual_hosts@.len() >= 1
    &&& forall|i: int|
        0 <= i < d.virtual_hosts@.len() ==> virtual_host_valid(#[trigger] d.virtual_hosts@[i])
}

// === Validators ===

/// Checks the path, header and query-parameter constraints of a route match.
pub fn validate_route_match(m: &RouteMatchDefinition) -> (r: Result<(), ApiError>)
    ensures
        r is Ok <==> route_match_valid(*m),
        r matches Err(e) ==> e is Validation,
{
    match &m.path {
        PathMatchDefinition::Exact { value } => {
            if is_blank(value.as_str()) {
                return Err(validation_error("Route match path value must not be empty"));
            }
        },
        PathMatchDefinition::Prefix { value } => {
            if is_blank(value.as_str()) {
                return Err(validation_error("Route match path value must not be empty"));
            }
        },
        PathMatchDefinition::Regex { value } => {
            if is_blank(value.as_str()) {
                return Err(validation_error("Route match path value must not be empty"));
            }
        },
        PathMatchDefinition::Template { template } => {
            if is_blank(template.as_str()) {
                return Err(validation_error("Route match template must not be empty"));
            }
            match ensure_valid_uri_template(template.as_str()) {
                Ok(_) => {},
                Err(e) => {
                    return Err(e);
                },
            }
        },
    }
    let mut i: usize = 0;
    while i < m.headers.len()
        invariant
            i <= m.headers@.len(),
            forall|j: int| 0 <= j < i ==> !spec_is_blank((#[trigger] m.headers@[j]).name@),
        decreases m.headers@.len() - i,
    {
        if is_blank(m.headers[i].name.as_str()) {
            return Err(validation_error("Header match name must not be empty"));
        }
        i = i + 1;
    }
    let mut i: usize = 0;
    while i < m.query_parameters.len()
        invariant
            i <= m.query_parameters@.len(),
            forall|j: int| 0 <= j < i ==> !spec_is_blank((#[trigger] m.query_parameters@[j]).name@),
        decreases m.query_parameters@.len() - i,
    {
        if is_blank(m.query_parameters[i].name.as_str()) {
            return Err(validation_error("Query parameter match name must not be empty"));
        }
        i = i + 1;
    }
    Ok(())
}

/// Checks the constraints of a route action.
pub fn validate_route_action(action: &RouteActionDefinition) -> (r: Result<(), ApiError>)
    ensures
        r is Ok <==> route_action_valid(*action),
        r matches Err(e) ==> e is Validation,
{
    match action {
        RouteActionDefinition::Forward { cluster, prefix_rewrite, template_rewrite, .. } => {
            if is_blank(cluster.as_str()) {
                return Err(validation_error("Forward action requires a cluster name"));
            }
            match prefix_rewrite {
                Some(prefix) => {
                    if prefix.unicode_len() == 0 {
                        return Err(
                            validation_error("prefixRewrite must not be an empty string"),
                        );
                    }
                    if prefix.as_str().get_char(0) != '/' {
                        return Err(validation_error("prefixRewrite must start with a slash"));
                    }
                },
                None => {},
            }
            match template_rewrite {
                Some(template) => {
                    if is_blank(template.as_str()) {
                        return Err(
                            validation_error("templateRewrite must not be an empty string"),
                        );
                    }
                    match ensure_valid_uri_template(template.as_str()) {
                        Ok(_) => {},
                        Err(e) => {
                            return Err(e);
                        },
                    }
                },
                None => {},
            }
            Ok(())
        },
        RouteActionDefinition::Weighted { clusters, .. } => {
            if clusters.len() == 0 {
                return Err(
                    validation_error("Weighted action must include at least one cluster"),
                );
            }
            let mut i: usize = 0;
            while i < clusters.len()
                invariant
                    i <= clusters@.len(),
                    *action is Weighted,
                    action->Weighted_clusters == *clusters,
                    forall|j: int|
                        0 <= j < i ==> !spec_is_blank((#[trigger] clusters@[j]).name@) && clusters@[j].weight
                            > 0,
                decreases clusters@.len() - i,
            {
                if is_blank(clusters[i].name.as_str()) {
                    assert(spec_is_blank((clusters@[i as int]).name@));
                    return Err(
                        validation_error("Weighted action cluster names must not be empty"),
                    );
                }
                if clusters[i].weight == 0 {
                    assert((clusters@[i as int]).weight == 0);
                    return Err(
                        validation_error(
                            "Weighted action cluster weights must be greater than zero",
                        ),
                    );
                }
                i = i + 1;
            }
            Ok(())
        },
        RouteActionDefinition::Redirect { host_redirect, path_redirect, .. } => {
            match host_redirect {
                Some(h) => {
                    if is_blank(h.as_str()) {
                        return Err(
                            validation_error("Redirect action values must not be empty strings"),
                        );
                    }
                },
                None => {},
            }
            match path_redirect {
                Some(p) => {
                    if is_blank(p.as_str()) {
                        return Err(
                            validation_error("Redirect action values must not be empty strings"),
                        );
                    }
                },
                None => {},
            }
            Ok(())
        },
    }
}

fn validate_route_rule(rule: &RouteRuleDefinition) -> (r: Result<(), ApiError>)
    ensures
        r is Ok <==> route_rule_valid(*rule),
        r matches Err(e) ==> e is Validation,
{
    match &rule.name {
        Some(n) => {
            let len = n.unicode_len();
            if len < 1 || len > 100 {
                return Err(
                    validation_error("Route rule name must be between 1 and 100 characters"),
                );
            }
        },
        None => {},
    }
    match validate_route_match(&rule.route_match) {
        Ok(_) => {},
        Err(e) => {
            return Err(e);
        },
    }
    match validate_route_action(&rule.action) {
        Ok(_) => {},
        Err(e) => {
            return Err(e);
        },
    }
    match (&rule.route_match.path, &rule.action) {
        (
            PathMatchDefinition::Template { .. },
            RouteActionDefinition::Forward { prefix_rewrite: Some(_), .. },
        ) => Err(validation_error("Template path matches do not support prefixRewrite")),
        (PathMatchDefinition::Template { .. }, RouteActionDefinition::Forward { .. }) => Ok(()),
        (PathMatchDefinition::Template { .. }, _) => {
            Err(validation_error("Template path matches require a forward action"))
        },
        (_, RouteActionDefinition::Forward { template_rewrite: Some(_), .. }) => {
            Err(validation_error("templateRewrite requires a template path match"))
        },
        _ => Ok(()),
    }
}

fn validate_virtual_host(vh: &VirtualHostDefinition) -> (r: Result<(), ApiError>)
    ensures
        r is Ok <==> virtual_host_valid(*vh),
        r matches Err(e) ==> e is Validation,
{
    let name_len = vh.name.unicode_len();
    if name_len < 1 || name_len > 100 {
        return Err(validation_error("Virtual host name must be between 1 and 100 characters"));
    }
    if vh.domains.len() < 1 {
        return Err(validation_error("Virtual host must include at least one domain"));
    }
    if vh.routes.len() < 1 {
        return Err(validation_error("Virtual host must include at least one route"));
    }
    let mut i: usize = 0;
    while i < vh.domains.len()
        invariant
            i <= vh.domains@.len(),
            forall|j: int| 0 <= j < i ==> !spec_is_blank((#[trigger] vh.domains@[j])@),
        decreases vh.domains@.len() - i,
    {
        if is_blank(vh.domains[i].as_str()) {
            return Err(validation_error("Virtual host domains must not be empty"));
        }
        i = i + 1;
    }
    let mut i: usize = 0;
    while i < vh.routes.len()
        invariant
            i <= vh.routes@.len(),
            forall|j: int| 0 <= j < i ==> route_rule_valid(#[trigger] vh.routes@[j]),
        decreases vh.routes@.len() - i,
    {
        match validate_route_rule(&vh.routes[i]) {
            Ok(_) => {},
            Err(e) => {
                return Err(e);
            },
        }
        i = i + 1;
    }
    Ok(())
}

/// Runs every field and cross-field check on a route configuration payload;
/// accepted exactly when the payload is valid.
pub fn validate_route_payload(definition: &RouteDefinition) -> (r: Result<(), ApiError>)
    ensures
        r is Ok <==> route_payload_valid(*definition),
        r matches Err(e) ==> e is Validation,
{
    let name_len = definition.name.unicode_len();
    if name_len < 1 || name_len > 100 {
        return Err(validation_error("Route name must be between 1 and 100 characters"));
    }
    if definition.virtual_hosts.len() < 1 {
        return Err(
            validation_error("Route configuration must include at least one virtual host"),
        );
    }
    let mut i: usize = 0;
    while i < definition.virtual_hosts.len()
        invariant
            i <= definition.virtual_hosts@.len(),
            forall|j: int| 0 <= j < i ==> virtual_host_valid(#[trigger] definition.virtual_hosts@[j]),
        decreases definition.virtual_hosts@.len() - i,
    {
        match validate_virtual_host(&definition.virtual_hosts[i]) {
            Ok(_) => {},
            Err(e) => {
                return Err(e);
            },
        }
        i = i + 1;
    }
    Ok(())
}

// === The wire-encoding smoke test on the canonical form ===

pub open spec fn route_rule_wire_valid(rule: RouteRule) -> bool {
    &&& (rule.route_match.path matches PathMatchDefinition::Template { template } ==>
        uri_template_encoding(template@).len() > 0)
    &&& (rule.action matches RouteActionConfig::Cluster {
        path_template_rewrite: Some(t),
        ..
    } ==> uri_template_encoding(t@).len() > 0)
}

pub open spec fn virtual_host_wire_valid(vh: VirtualHostConfig) -> bool {
    forall|i: int| 0 <= i < vh.routes@.len() ==> route_rule_wire_valid(#[trigger] vh.routes@[i])
}

/// Every URI template in the canonical form has a non-empty wire encoding.
pub open spec fn route_config_wire_valid(c: RouteConfig) -> bool {
    forall|i: int|
        0 <= i < c.virtual_hosts@.len() ==> virtual_host_wire_valid(#[trigger] c.virtual_hosts@[i])
}

fn validate_rule_wire(rule: &RouteRule) -> (r: Result<(), ApiError>)
    ensures
        r is Ok <==> route_rule_wire_valid(*rule),
        r matches Err(e) ==> e is Validation,
{
    match &rule.route_match.path {
        PathMatchDefinition::Template { template } => {
            match ensure_valid_uri_template(template.as_str()) {
                Ok(_) => {},
                Err(e) => {
                    return Err(e);
                },
            }
        },
        _ => {},
    }
    match &rule.action {
        RouteActionConfig::Cluster { path_template_rewrite: Some(t), .. } => {
            match ensure_valid_uri_template(t.as_str()) {
                Ok(_) => {},
                Err(e) => {
                    return Err(e);
                },
            }
        },
        _ => {},
    }
    Ok(())
}

/// The encoding smoke test run before a canonical form is persisted: every
/// URI template it holds must encode to non-empty bytes.
pub fn validate_route_config(config: RouteConfig) -> (r: Result<RouteConfig, ApiError>)
    ensures
        r matches Ok(c) ==> c == config && route_config_wire_valid(config),
        r is Ok <==> route_config_wire_valid(config),
        r matches Err(e) ==> e is Validation,
{
    let mut i: usize = 0;
    while i < config.virtual_hosts.len()
        invariant
            i <= config.virtual_hosts@.len(),
            forall|j: int|
                0 <= j < i ==> virtual_host_wire_valid(#[trigger] config.virtual_hosts@[j]),
        decreases config.virtual_hosts@.len() - i,
    {
        let vh = &config.virtual_hosts[i];
        let mut k: usize = 0;
        while k < vh.routes.len()
            invariant
                k <= vh.routes@.len(),
                i < config.virtual_hosts@.len(),
                *vh == config.virtual_hosts@[i as int],
                forall|j: int| 0 <= j < k ==> route_rule_wire_valid(#[trigger] vh.routes@[j]),
            decreases vh.routes@.len() - k,
        {
            match validate_rule_wire(&vh.routes[k]) {
                Ok(_) => {},
                Err(e) => {
                    assert(!route_rule_wire_valid(vh.routes@[k as int]));
                    assert(!virtual_host_wire_valid(config.virtual_hosts@[i as int]));
                    return Err(e);
                },
            }
            k = k + 1;
        }
        i = i + 1;
    }
    Ok(config)
}

// === Template and rewrite cross-rules, as laws ===

/// A rule with a template path match and a forward action carrying
/// `prefixRewrite` makes the whole payload invalid, so the API rejects it.
pub proof fn lemma_template_forbids_prefix_rewrite(d: RouteDefinition, i: int, j: int)
    requires
        0 <= i < d.virtual_hosts@.len(),
        0 <= j < d.virtual_hosts@[i].routes@.len(),
        d.virtual_hosts@[i].routes@[j].route_match.path is Template,
        d.virtual_hosts@[i].routes@[j].action matches RouteActionDefinition::Forward {
            prefix_rewrite: Some(_),
            ..
        },
    ensures
        !route_payload_valid(d),
{
    let rule = d.virtual_hosts@[i].routes@[j];
    assert(!route_rule_cross_valid(rule));
}

/// A rule with `templateRewrite` and a non-template path match makes the
/// whole payload invalid, so the API rejects it.
pub proof fn lemma_template_rewrite_requires_template(d: RouteDefinition, i: int, j: int)
    requires
        0 <= i < d.virtual_hosts@.len(),
        0 <= j < d.virtual_hosts@[i].routes@.len(),
        !(d.virtual_hosts@[i].routes@[j].route_match.path is Template),
        d.virtual_hosts@[i].routes@[j].action matches RouteActionDefinition::Forward {
            template_rewrite: Some(_),
            ..
        },
    ensures
        !route_payload_valid(d),
{
    let rule = d.virtual_hosts@[i].routes@[j];
    assert(!route_rule_cross_valid(rule));
}

// === The stored summary ===

/// The first route rule of a configuration, in virtual-host order.
pub open spec fn spec_first_rule(vhs: Seq<VirtualHostDefinition>) -> Option<RouteRuleDefinition>
    decreases vhs.len(),
{
    if vhs.len() == 0 {
        None
    } else if vhs[0].routes@.len() > 0 {
        Some(vhs[0].routes@[0])
    } else {
        spec_first_rule(vhs.subrange(1, vhs.len() as int))
    }
}

/// How a path match is rendered in the `pathPrefix` summary column.
pub open spec fn spec_path_summary(p: PathMatchDefinition) -> Seq<char> {
    match p {
        PathMatchDefinition::Exact { value } => value@,
        PathMatchDefinition::Prefix { value } => value@,
        PathMatchDefinition::Regex { value } => "regex:"@ + value@,
        PathMatchDefinition::Template { template } => "template:"@ + template@,
    }
}

/// How an action is rendered in the `clusterTargets` summary column.
pub open spec fn spec_cluster_summary(a: RouteActionDefinition) -> Seq<char> {
    match a {
        RouteActionDefinition::Forward { cluster, .. } => cluster@,
        RouteActionDefinition::Weighted { clusters, .. } => {
            if clusters@.len() > 0 {
                clusters@[0].name@
            } else {
                Seq::empty()
            }
        },
        RouteActionDefinition::Redirect { .. } => "__redirect__"@,
    }
}

proof fn lemma_first_rule_at(vhs: Seq<VirtualHostDefinition>, i: int)
    requires
        0 <= i < vhs.len(),
        forall|j: int| 0 <= j < i ==> (#[trigger] vhs[j]).routes@.len() == 0,
        vhs[i].routes@.len() > 0,
    ensures
        spec_first_rule(vhs) == Some(vhs[i].routes@[0]),
    decreases i,
{
    if i > 0 {
        let rest = vhs.subrange(1, vhs.len() as int);
        assert(rest[i - 1] == vhs[i]);
        assert(forall|j: int| 0 <= j < i - 1 ==> rest[j] == vhs[j + 1]);
        lemma_first_rule_at(rest, i - 1);
    }
}

proof fn lemma_first_rule_none(vhs: Seq<VirtualHostDefinition>)
    requires
        forall|j: int| 0 <= j < vhs.len() ==> (#[trigger] vhs[j]).routes@.len() == 0,
    ensures
        spec_first_rule(vhs) is None,
    decreases vhs.len(),
{
    if vhs.len() > 0 {
        let rest = vhs.subrange(1, vhs.len() as int);
        assert(forall|j: int| 0 <= j < rest.len() ==> rest[j] == vhs[j + 1]);
        lemma_first_rule_none(rest);
    }
}

/// Renders the summary columns stored beside a configuration: the first
/// rule's path, and the first rule's cluster target.  Without any rule the
/// columns read `*` and `unknown`.
pub fn summarize_route(definition: &RouteDefinition) -> (r: (String, String))
    ensures
        match spec_first_rule(definition.virtual_hosts@) {
            Some(rule) => r.0@ == spec_path_summary(rule.route_match.path) && r.1@
                == spec_cluster_summary(rule.action),
            None => r.0@ == "*"@ && r.1@ == "unknown"@,
        },
{
    let n = definition.virtual_hosts.len();
    let mut i: usize = 0;
    while i < n
        invariant
            i <= n,
            n == definition.virtual_hosts@.len(),
            forall|j: int|
                0 <= j < i ==> (#[trigger] definition.virtual_hosts@[j]).routes@.len() == 0,
        decreases n - i,
    {
        let vh = &definition.virtual_hosts[i];
        if vh.routes.len() > 0 {
            proof {
                lemma_first_rule_at(definition.virtual_hosts@, i as int);
            }
            let rule = &vh.routes[0];
            let path_summary: String = match &rule.route_match.path {
                PathMatchDefinition::Exact { value } => value.clone(),
                PathMatchDefinition::Prefix { value } => value.clone(),
                PathMatchDefinition::Regex { value } => {
                    String::from_str("regex:").concat(value.as_str())
                },
                PathMatchDefinition::Template { template } => {
                    String::from_str("template:").concat(template.as_str())
                },
            };
            let cluster_summary: String = match &rule.action {
                RouteActionDefinition::Forward { cluster, .. } => cluster.clone(),
                RouteActionDefinition::Weighted { clusters, .. } => {
                    if clusters.len() > 0 {
                        clusters[0].name.clone()
                    } else {
                        String::new()
                    }
                },
                RouteActionDefinition::Redirect { .. } => String::from_str("__redirect__"),
            };
            return (path_summary, cluster_summary);
        }
        i = i + 1;
    }
    proof {
        lemma_first_rule_none(definition.virtual_hosts@);
    }
    (String::from_str("*"), String::from_str("unknown"))
}

/// The `pathPrefix` summary column of a configuration.
pub open spec fn spec_route_path_prefix(d: RouteDefinition) -> Seq<char> {
    match spec_first_rule(d.virtual_hosts@) {
        Some(rule) => spec_path_summary(rule.route_match.path),
        None => "*"@,
    }
}

/// The `clusterTargets` summary column of a configuration.
pub open spec fn spec_route_cluster_summary(d: RouteDefinition) -> Seq<char> {
    match spec_first_rule(d.virtual_hosts@) {
        Some(rule) => spec_cluster_summary(rule.action),
        None => "unknown"@,
    }
}

// === The system-owned default gateway route configuration ===

pub open spec fn spec_is_default_gateway_route(name: Seq<char>) -> bool {
    name == "default-gateway-routes"@
}

/// Whether `name` names the default gateway route configuration, the one
/// route resource the API refuses to delete.
pub fn is_default_gateway_route(name: &str) -> (r: bool)
    ensures
        r == spec_is_default_gateway_route(name@),
{
    crate::text::str_eq(name, "default-gateway-routes")
}

} // verus!
