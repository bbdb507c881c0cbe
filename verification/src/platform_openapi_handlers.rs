//! The OpenAPI importer: reads a parsed OpenAPI 3.x document, extracts the
//! gateway policies carried in `x-flowplane-*` extensions, and produces a
//! Platform API definition together with the warnings gathered on the way.
//! The legacy gateway import path answers with a permanent redirect.

use vstd::prelude::*;

use crate::errors::ApiError;
use crate::json::{json_equiv, spec_get, JsonField, JsonVal};
use crate::platform_api_definitions::{
    ApiDefinition, ApiPolicies, ApiRoute, AuthenticationPolicy, CorsPolicy, RateLimitPolicy,
    UpstreamConfig, UpstreamEndpoint,
};
use crate::text::{opt_str_equiv, spec_starts_with, starts_with};

verus! {

/// Query parameters of the import endpoint.
pub struct OpenApiImportQuery {
    pub name: String,
    pub version: Option<String>,
    pub base_path: Option<String>,
}

/// What the import endpoint answers: the definition it produced, the
/// warnings gathered, and the freshly drawn id.
pub struct OpenApiImportResponse {
    pub id: String,
    pub name: String,
    pub version: String,
    pub base_path: String,
    pub upstream: UpstreamConfig,
    pub routes: Vec<ApiRoute>,
    pub policies: Option<ApiPolicies>,
    pub metadata: Option<JsonVal>,
    pub warnings: Option<Vec<String>>,
    pub created_at: String,
}

// === The URL seam ===

/// The split of a URL into what the importer reads: whether the scheme is
/// https, the host, the port, and the path.
pub struct UrlParts {
    pub is_https: bool,
    pub host: Option<String>,
    pub port: Option<u16>,
    pub path: String,
}

/// What parsing a URL yields, a function of the text alone.
pub uninterp spec fn spec_url_parts(s: Seq<char>) -> Option<UrlParts>;

/// Relies on `url::Url::parse`: whether the text is an absolute URL and,
/// when it is, its scheme, host, port and path.
#[verifier::external_body]
fn parse_url(s: &str) -> (r: Option<UrlParts>)
    ensures
        r is Some <==> spec_url_parts(s@) is Some,
        (match (r, spec_url_parts(s@)) {
            (Some(p), Some(q)) => p.is_https == q.is_https && opt_str_equiv(p.host, q.host)
                && p.port == q.port && p.path@ == q.path@,
            _ => true,
        }),
{
    match url::Url::parse(s) {
        Ok(u) => Some(
            UrlParts {
                is_https: u.scheme() == "https",
                host: u.host_str().map(|h| h.to_string()),
                port: u.port(),
                path: u.path().to_string(),
            },
        ),
        Err(_) => None,
    }
}

// === Extracting `x-flowplane-*` policies from one operation ===

pub open spec fn spec_rate_limit_rel(op: JsonVal, r: Option<RateLimitPolicy>) -> bool {
    match spec_get(op, "x-flowplane-ratelimit"@) {
        Option::None => r is None,
        Option::Some(rl) => match spec_get(rl, "requests"@) {
            Option::Some(JsonVal::UInt(n)) => match spec_get(rl, "interval"@) {
                Option::Some(JsonVal::Str(s)) => r matches Some(p) && p.requests == n as u32
                    && p.interval@ == s@ && (match spec_get(rl, "keyBy"@) {
                    Option::Some(JsonVal::Str(k)) => p.key_by matches Some(kb) && kb@ == k@,
                    _ => p.key_by is None,
                }),
                _ => r is None,
            },
            _ => r is None,
        },
    }
}

/// Whether the rate-limit extension is present but malformed: it demands an
/// integer `requests` and a string `interval`; missing either makes it
/// malformed.
pub open spec fn spec_rate_limit_malformed(op: JsonVal) -> bool {
    match spec_get(op, "x-flowplane-ratelimit"@) {
        Option::Some(rl) => !((spec_get(rl, "requests"@) matches Option::Some(JsonVal::UInt(_)))
            && (spec_get(rl, "interval"@) matches Option::Some(JsonVal::Str(_)))),
        Option::None => false,
    }
}

pub open spec fn spec_jwt_rel(op: JsonVal, r: Option<AuthenticationPolicy>) -> bool {
    match spec_get(op, "x-flowplane-jwt-auth"@) {
        Option::None => r is None,
        Option::Some(a) => r matches Some(ap) && ap.auth_type@ == "jwt"@ && ap.required == (
        match spec_get(a, "required"@) {
            Option::Some(JsonVal::Bool(b)) => b,
            _ => true,
        }) && (ap.config matches Some(cfg) && cfg matches JsonVal::Obj(fs) && fs@.len() == 2
            && fs@[0].key@ == "issuer"@ && (match spec_get(a, "issuer"@) {
            Option::Some(v) => json_equiv(fs@[0].val, v),
            Option::None => fs@[0].val is Null,
        }) && fs@[1].key@ == "audience"@ && (match spec_get(a, "audience"@) {
            Option::Some(v) => json_equiv(fs@[1].val, v),
            Option::None => fs@[1].val is Null,
        })),
    }
}

/// The strings among a list of values, in order.
pub open spec fn spec_strs_of(vals: Seq<JsonVal>) -> Seq<Seq<char>>
    decreases vals.len(),
{
    if vals.len() == 0 {
        Seq::empty()
    } else {
        spec_strs_of(vals.drop_last()) + (match vals.last() {
            JsonVal::Str(s) => seq![s@],
            _ => Seq::empty(),
        })
    }
}

pub open spec fn spec_str_list_or(op: JsonVal, key: Seq<char>, dflt: Seq<Seq<char>>) -> Seq<
    Seq<char>,
> {
    match spec_get(op, key) {
        Option::Some(JsonVal::Arr(a)) => spec_strs_of(a@),
        _ => dflt,
    }
}

pub open spec fn spec_cors_rel(op: JsonVal, r: Option<CorsPolicy>) -> bool {
    match spec_get(op, "x-flowplane-cors"@) {
        Option::None => r is None,
        Option::Some(c) => r matches Some(p) && p.origins.deep_view() == spec_str_list_or(
            c,
            "origins"@,
            seq!["*"@],
        ) && p.methods.deep_view() == spec_str_list_or(c, "methods"@, seq!["GET"@, "POST"@])
            && p.headers.deep_view() == spec_str_list_or(
            c,
            "headers"@,
            seq!["Content-Type"@, "Authorization"@],
        ) && p.allow_credentials == (match spec_get(c, "allowCredentials"@) {
            Option::Some(JsonVal::Bool(b)) => b,
            _ => false,
        }) && p.max_age == (match spec_get(c, "maxAge"@) {
            Option::Some(JsonVal::UInt(u)) => Some(u as u32),
            _ => None::<u32>,
        }),
    }
}

/// The warnings the unknown `x-flowplane-*` keys of an operation give, in
/// field order.
pub open spec fn spec_unknown_warnings(fields: Seq<JsonField>) -> Seq<Seq<char>>
    decreases fields.len(),
{
    if fields.len() == 0 {
        Seq::empty()
    } else {
        spec_unknown_warnings(fields.drop_last()) + (if spec_is_unknown_tag(
            fields.last().key@,
        ) {
            seq!["Unknown flowplane tag: "@ + fields.last().key@]
        } else {
            Seq::empty()
        })
    }
}

pub open spec fn spec_is_unknown_tag(k: Seq<char>) -> bool {
    &&& spec_starts_with(k, "x-flowplane-"@)
    &&& k != "x-flowplane-ratelimit"@
    &&& k != "x-flowplane-jwt-auth"@
    &&& k != "x-flowplane-cors"@
}

pub open spec fn spec_op_fields(op: JsonVal) -> Seq<JsonField> {
    match op {
        JsonVal::Obj(fs) => fs@,
        _ => Seq::empty(),
    }
}

/// The full policy set an operation carries, or none when no recognised
/// extension is present.
pub open spec fn spec_policies_rel(op: JsonVal, r: Option<ApiPolicies>) -> bool {
    match r {
        Option::Some(p) => {
            &&& spec_rate_limit_rel(op, p.rate_limit)
            &&& spec_jwt_rel(op, p.authentication)
            &&& spec_cors_rel(op, p.cors)
            &&& p.authorization is None
            &&& p.circuit_breaker is None
            &&& p.retry is None
            &&& p.timeout is None
            &&& (p.rate_limit is Some || p.authentication is Some || p.cors is Some)
        },
        Option::None => {
            &&& spec_rate_limit_rel(op, None::<RateLimitPolicy>)
            &&& spec_jwt_rel(op, None::<AuthenticationPolicy>)
            &&& spec_cors_rel(op, None::<CorsPolicy>)
        },
    }
}

/// The warnings an operation gives: the malformed-rate-limit warning first,
/// then one per unknown tag.
pub open spec fn spec_op_warnings(op: JsonVal) -> Seq<Seq<char>> {
    (if spec_rate_limit_malformed(op) {
        seq!["Invalid x-flowplane-ratelimit format"@]
    } else {
        Seq::empty()
    }) + spec_unknown_warnings(spec_op_fields(op))
}

fn extract_rate_limit(op: &JsonVal) -> (r: (Option<RateLimitPolicy>, bool))
    ensures
        spec_rate_limit_rel(*op, r.0),
        r.1 == spec_rate_limit_malformed(*op),
{
    match op.get("x-flowplane-ratelimit") {
        Some(rl) => {
            match rl.get("requests") {
                Some(rv) => {
                    match rv.as_u64() {
                        Some(n) => {
                            match rl.get("interval") {
                                Some(iv) => {
                                    match iv.as_str() {
                                        Some(s) => {
                                            let key_by: Option<String> = match rl.get("keyBy") {
                                                Some(kv) => match kv.as_str() {
                                                    Some(k) => Some(k.clone()),
                                                    None => None,
                                                },
                                                None => None,
                                            };
                                            #[verifier::truncate]
                                            let requests32 = n as u32;
                                            (
                                                Some(
                                                    RateLimitPolicy {
                                                        requests: requests32,
                                                        interval: s.clone(),
                                                        key_by,
                                                    },
                                                ),
                                                false,
                                            )
                                        },
                                        None => (None, true),
                                    }
                                },
                                None => (None, true),
                            }
                        },
                        None => (None, true),
                    }
                },
                None => (None, true),
            }
        },
        None => (None, false),
    }
}

fn extract_jwt(op: &JsonVal) -> (r: Option<AuthenticationPolicy>)
    ensures
        spec_jwt_rel(*op, r),
{
    match op.get("x-flowplane-jwt-auth") {
        Some(a) => {
            let required: bool = match a.get("required") {
                Some(rv) => match rv.as_bool() {
                    Some(b) => b,
                    None => true,
                },
                None => true,
            };
            let issuer_val: JsonVal = match a.get("issuer") {
                Some(v) => v.duplicate(),
                None => JsonVal::Null,
            };
            let audience_val: JsonVal = match a.get("audience") {
                Some(v) => v.duplicate(),
                None => JsonVal::Null,
            };
            let mut cfg: Vec<JsonField> = Vec::new();
            cfg.push(JsonField { key: String::from_str("issuer"), val: issuer_val });
            cfg.push(JsonField { key: String::from_str("audience"), val: audience_val });
            Some(
                AuthenticationPolicy {
                    auth_type: String::from_str("jwt"),
                    required,
                    config: Some(JsonVal::Obj(cfg)),
                },
            )
        },
        None => None,
    }
}

fn collect_strs(vals: &Vec<JsonVal>) -> (r: Vec<String>)
    ensures
        r.deep_view() == spec_strs_of(vals@),
{
    let mut out: Vec<String> = Vec::new();
    let mut i: usize = 0;
    while i < vals.len()
        invariant
            i <= vals@.len(),
            out.deep_view() == spec_strs_of(vals@.take(i as int)),
        decreases vals@.len() - i,
    {
        proof {
            assert(vals@.take(i + 1).drop_last() =~= vals@.take(i as int));
            assert(vals@.take(i + 1).last() == vals@[i as int]);
        }
        let ghost before = out.deep_view();
        match &vals[i] {
            JsonVal::Str(s) => {
                out.push(s.clone());
                proof {
                    assert(out.deep_view() =~= before.push((vals@[i as int])->Str_0@));
                    assert(out.deep_view() =~= spec_strs_of(vals@.take(i + 1)));
                }
            },
            _ => {
                proof {
                    assert(out.deep_view() =~= spec_strs_of(vals@.take(i + 1)));
                }
            },
        }
        i = i + 1;
    }
    proof {
        assert(vals@.take(vals@.len() as int) =~= vals@);
    }
    out
}

fn str_list_or(op: &JsonVal, key: &str, dflt: Vec<String>) -> (r: Vec<String>)
    ensures
        r.deep_view() == spec_str_list_or(*op, key@, dflt.deep_view()),
{
    match op.get(key) {
        Some(v) => match v.as_array() {
            Some(a) => collect_strs(a),
            None => dflt,
        },
        None => dflt,
    }
}

fn extract_cors(op: &JsonVal) -> (r: Option<CorsPolicy>)
    ensures
        spec_cors_rel(*op, r),
{
    match op.get("x-flowplane-cors") {
        Some(c) => {
            let mut d_origins: Vec<String> = Vec::new();
            d_origins.push(String::from_str("*"));
            proof {
                assert(d_origins.deep_view() =~= seq![("*")@]);
            }
            let mut d_methods: Vec<String> = Vec::new();
            d_methods.push(String::from_str("GET"));
            d_methods.push(String::from_str("POST"));
            proof {
                assert(d_methods.deep_view() =~= seq![("GET")@, ("POST")@]);
            }
            let mut d_headers: Vec<String> = Vec::new();
            d_headers.push(String::from_str("Content-Type"));
            d_headers.push(String::from_str("Authorization"));
            proof {
                assert(d_headers.deep_view() =~= seq![("Content-Type")@, ("Authorization")@]);
            }
            let origins = str_list_or(c, "origins", d_origins);
            let methods = str_list_or(c, "methods", d_methods);
            let headers = str_list_or(c, "headers", d_headers);
            let allow_credentials: bool = match c.get("allowCredentials") {
                Some(v) => match v.as_bool() {
                    Some(b) => b,
                    None => false,
                },
                None => false,
            };
            let max_age: Option<u32> = match c.get("maxAge") {
                Some(v) => match v.as_u64() {
                    Some(u) => {
                        #[verifier::truncate]
                        let u32v = u as u32;
                        Some(u32v)
                    },
                    None => None,
                },
                None => None,
            };
            Some(CorsPolicy { origins, methods, headers, allow_credentials, max_age })
        },
        None => None,
    }
}

fn known_tag(k: &String) -> (r: bool)
    ensures
        r == !spec_is_unknown_tag(k@) || !spec_starts_with(k@, "x-flowplane-"@),
{
    crate::text::eq_lit(k, "x-flowplane-ratelimit") || crate::text::eq_lit(
        k,
        "x-flowplane-jwt-auth",
    ) || crate::text::eq_lit(k, "x-flowplane-cors")
}

/// Reads the `x-flowplane-*` extensions of one operation: the recognised
/// rate-limit, JWT and CORS policies, and a warning for a malformed rate
/// limit or any unrecognised tag.
pub fn extract_flowplane_policies(operation: &JsonVal) -> (r: (
    Option<ApiPolicies>,
    Vec<String>,
))
    ensures
        spec_policies_rel(*operation, r.0),
        r.1.deep_view() == spec_op_warnings(*operation),
{
    let (rate_limit, malformed) = extract_rate_limit(operation);
    let authentication = extract_jwt(operation);
    let cors = extract_cors(operation);
    let mut warnings: Vec<String> = Vec::new();
    if malformed {
        warnings.push(String::from_str("Invalid x-flowplane-ratelimit format"));
    }
    let ghost head = warnings.deep_view();
    proof {
        assert(head =~= (if spec_rate_limit_malformed(*operation) {
            seq![("Invalid x-flowplane-ratelimit format")@]
        } else {
            Seq::<Seq<char>>::empty()
        }));
    }
    match operation.as_object() {
        Some(fs) => {
            let mut i: usize = 0;
            while i < fs.len()
                invariant
                    i <= fs@.len(),
                    warnings.deep_view() =~= head + spec_unknown_warnings(fs@.take(i as int)),
                decreases fs@.len() - i,
            {
                proof {
                    assert(fs@.take(i + 1).drop_last() =~= fs@.take(i as int));
                    assert(fs@.take(i + 1).last() == fs@[i as int]);
                }
                let key = &fs[i].key;
                if starts_with(key.as_str(), "x-flowplane-") && !known_tag(key) {
                    let w = String::from_str("Unknown flowplane tag: ").concat(key.as_str());
                    let ghost before = warnings.deep_view();
                    warnings.push(w);
                    proof {
                        assert(warnings.deep_view() =~= before.push(
                            "Unknown flowplane tag: "@ + fs@[i as int].key@,
                        ));
                        assert(warnings.deep_view() =~= head + spec_unknown_warnings(
                            fs@.take(i + 1),
                        ));
                    }
                } else {
                    proof {
                        assert(warnings.deep_view() =~= head + spec_unknown_warnings(
                            fs@.take(i + 1),
                        ));
                    }
                }
                i = i + 1;
            }
            proof {
                assert(fs@.take(fs@.len() as int) =~= fs@);
            }
        },
        None => {
            proof {
                assert(spec_op_fields(*operation) =~= Seq::<JsonField>::empty());
            }
        },
    }
    let has = rate_limit.is_some() || authentication.is_some() || cors.is_some();
    let policies: Option<ApiPolicies> = if has {
        Some(
            ApiPolicies {
                rate_limit,
                authentication,
                authorization: None,
                cors,
                circuit_breaker: None,
                retry: None,
                timeout: None,
            },
        )
    } else {
        None
    };
    proof {
        assert(warnings.deep_view() =~= spec_op_warnings(*operation));
    }
    (policies, warnings)
}


// === The document-level import ===

pub open spec fn spec_method_key(m: int) -> Seq<char> {
    if m == 0 {
        "get"@
    } else if m == 1 {
        "post"@
    } else if m == 2 {
        "put"@
    } else if m == 3 {
        "delete"@
    } else if m == 4 {
        "patch"@
    } else if m == 5 {
        "options"@
    } else {
        "head"@
    }
}

pub open spec fn spec_method_upper(m: int) -> Seq<char> {
    if m == 0 {
        "GET"@
    } else if m == 1 {
        "POST"@
    } else if m == 2 {
        "PUT"@
    } else if m == 3 {
        "DELETE"@
    } else if m == 4 {
        "PATCH"@
    } else if m == 5 {
        "OPTIONS"@
    } else {
        "HEAD"@
    }
}

/// The (path index, method index) pairs of the first `n` methods a path
/// item carries, in method order.
pub open spec fn spec_item_slots_upto(i: int, item: JsonVal, n: int) -> Seq<(int, int)>
    decreases n,
{
    if n <= 0 {
        Seq::empty()
    } else {
        spec_item_slots_upto(i, item, n - 1) + (if spec_get(item, spec_method_key(n - 1))
            is Some {
            seq![(i, n - 1)]
        } else {
            Seq::empty()
        })
    }
}

/// The warnings of the first `n` method operations of a path item, in
/// method order.
pub open spec fn spec_item_warnings_upto(item: JsonVal, n: int) -> Seq<Seq<char>>
    decreases n,
{
    if n <= 0 {
        Seq::empty()
    } else {
        spec_item_warnings_upto(item, n - 1) + (match spec_get(item, spec_method_key(n - 1)) {
            Option::Some(op) => spec_op_warnings(op),
            Option::None => Seq::empty(),
        })
    }
}

/// Every (path, method) pair of a paths object, in path then method order:
/// the slots the importer emits one route for, in emission order.
pub open spec fn spec_slots(fields: Seq<JsonField>) -> Seq<(int, int)>
    decreases fields.len(),
{
    if fields.len() == 0 {
        Seq::empty()
    } else {
        spec_slots(fields.drop_last()) + spec_item_slots_upto(
            fields.len() - 1,
            fields.last().val,
            7,
        )
    }
}

/// The warnings a whole paths object yields, in path and method order.
pub open spec fn spec_warnings_fields(fields: Seq<JsonField>) -> Seq<Seq<char>>
    decreases fields.len(),
{
    if fields.len() == 0 {
        Seq::empty()
    } else {
        spec_warnings_fields(fields.drop_last()) + spec_item_warnings_upto(fields.last().val, 7)
    }
}

/// The fields of the document's `paths` object, when it has one.
pub open spec fn spec_paths_fields(doc: JsonVal) -> Seq<JsonField> {
    match spec_get(doc, "paths"@) {
        Option::Some(JsonVal::Obj(fs)) => fs@,
        _ => Seq::empty(),
    }
}

/// What one emitted route says about its operation.
pub open spec fn spec_route_from_op(path: Seq<char>, m: int, op: JsonVal, r: ApiRoute) -> bool {
    &&& r.path@ == path
    &&& r.methods.deep_view() == seq![spec_method_upper(m)]
    &&& (match spec_get(op, "summary"@) {
        Option::Some(JsonVal::Str(s)) => r.description matches Some(d) && d@ == s@,
        Option::Some(_) => r.description is None,
        Option::None => match spec_get(op, "description"@) {
            Option::Some(JsonVal::Str(s)) => r.description matches Some(d) && d@ == s@,
            _ => r.description is None,
        },
    })
    &&& spec_policies_rel(op, r.policies)
}

/// The route emitted for one slot restates that path item's operation.
pub open spec fn spec_slot_route(fields: Seq<JsonField>, slot: (int, int), r: ApiRoute) -> bool {
    &&& 0 <= slot.0 < fields.len()
    &&& 0 <= slot.1 < 7
    &&& (match spec_get(fields[slot.0].val, spec_method_key(slot.1)) {
        Option::Some(op) => spec_route_from_op(fields[slot.0].key@, slot.1, op, r),
        Option::None => false,
    })
}

/// The version of the imported definition: the query override, else the
/// document's `info.version`, else `1.0.0`.
pub open spec fn spec_version_of(doc: JsonVal, o: Option<String>) -> Seq<char> {
    match o {
        Option::Some(v) => v@,
        Option::None => match spec_get(doc, "info"@) {
            Option::Some(info) => match spec_get(info, "version"@) {
                Option::Some(JsonVal::Str(s)) => s@,
                _ => "1.0.0"@,
            },
            _ => "1.0.0"@,
        },
    }
}

/// The first server URL of the document, when it names one.
pub open spec fn spec_server_url(doc: JsonVal) -> Option<Seq<char>> {
    match spec_get(doc, "servers"@) {
        Option::Some(JsonVal::Arr(a)) => if a@.len() > 0 {
            match spec_get(a@[0], "url"@) {
                Option::Some(JsonVal::Str(u)) => Option::Some(u@),
                _ => Option::None,
            }
        } else {
            Option::None
        },
        _ => Option::None,
    }
}

/// The base path of the imported definition: the query override, else the
/// path of the first server URL, else the URL itself when it starts with a
/// slash, else `/`.
pub open spec fn spec_base_path_of(doc: JsonVal, o: Option<String>) -> Seq<char> {
    match o {
        Option::Some(b) => b@,
        Option::None => match spec_server_url(doc) {
            Option::Some(u) => match spec_url_parts(u) {
                Option::Some(p) => p.path@,
                Option::None => if u.len() > 0 && u[0] == '/' {
                    u
                } else {
                    "/"@
                },
            },
            Option::None => "/"@,
        },
    }
}

/// What the upstream of the imported definition looks like: a single
/// endpoint at the first server's host, the explicit or scheme-default
/// port, and TLS exactly for https; or the synthesized fallback backend
/// when no server URL parses.
pub open spec fn spec_upstream_rel(name: Seq<char>, doc: JsonVal, up: UpstreamConfig) -> bool {
    match spec_server_url(doc) {
        Option::Some(u) => match spec_url_parts(u) {
            Option::Some(p) => match p.host {
                Option::Some(h) => {
                    &&& up.service@ == name + "-backend"@
                    &&& up.endpoints@.len() == 1
                    &&& up.endpoints@[0].host@ == h@
                    &&& up.endpoints@[0].port == (match p.port {
                        Option::Some(pt) => pt,
                        Option::None => if p.is_https {
                            443u16
                        } else {
                            80u16
                        },
                    })
                    &&& up.endpoints@[0].weight == 100
                    &&& up.tls == p.is_https
                    &&& up.load_balancing@ == "ROUND_ROBIN"@
                },
                Option::None => spec_upstream_fallback(name, up),
            },
            Option::None => spec_upstream_fallback(name, up),
        },
        Option::None => spec_upstream_fallback(name, up),
    }
}

pub open spec fn spec_upstream_fallback(name: Seq<char>, up: UpstreamConfig) -> bool {
    &&& up.service@ == name + "-backend"@
    &&& up.endpoints@.len() == 1
    &&& up.endpoints@[0].host@ == "backend.example.com"@
    &&& up.endpoints@[0].port == 80
    &&& up.endpoints@[0].weight == 100
    &&& up.tls == false
    &&& up.load_balancing@ == "ROUND_ROBIN"@
}

fn method_names(m: usize) -> (r: (&'static str, &'static str))
    requires
        m < 7,
    ensures
        r.0@ == spec_method_key(m as int),
        r.1@ == spec_method_upper(m as int),
{
    if m == 0 {
        ("get", "GET")
    } else if m == 1 {
        ("post", "POST")
    } else if m == 2 {
        ("put", "PUT")
    } else if m == 3 {
        ("delete", "DELETE")
    } else if m == 4 {
        ("patch", "PATCH")
    } else if m == 5 {
        ("options", "OPTIONS")
    } else {
        ("head", "HEAD")
    }
}

fn upstream_from_doc(name: &str, doc: &JsonVal) -> (r: UpstreamConfig)
    ensures
        spec_upstream_rel(name@, *doc, r),
{
    let service = String::from_str(name).concat("-backend");
    let fallback_host = String::from_str("backend.example.com");
    let parsed: Option<UrlParts> = match doc.get("servers") {
        Some(v) => match v.as_array() {
            Some(a) => {
                if a.len() > 0 {
                    match a[0].get("url") {
                        Some(uv) => match uv.as_str() {
                            Some(u) => parse_url(u.as_str()),
                            None => None,
                        },
                        None => None,
                    }
                } else {
                    None
                }
            },
            None => None,
        },
        None => None,
    };
    let mut endpoints: Vec<UpstreamEndpoint> = Vec::new();
    let (host, port, tls): (String, u16, bool) = match parsed {
        Some(p) => {
            match p.host {
                Some(h) => {
                    let port: u16 = match p.port {
                        Some(pt) => pt,
                        None => if p.is_https {
                            443
                        } else {
                            80
                        },
                    };
                    (h, port, p.is_https)
                },
                None => (fallback_host, 80, false),
            }
        },
        None => (fallback_host, 80, false),
    };
    endpoints.push(UpstreamEndpoint { host, port, weight: 100 });
    UpstreamConfig {
        service,
        endpoints,
        tls,
        load_balancing: String::from_str("ROUND_ROBIN"),
    }
}

/// Converts a parsed OpenAPI 3.x document to a Platform API definition: one
/// route per path and method, the policies carried by the extensions, the
/// upstream derived from the first server, and the warnings gathered on the
/// way.  The first route's policies also become the definition's global
/// policies.
pub fn openapi_to_api_definition(
    doc: &JsonVal,
    name: String,
    version_override: Option<String>,
    base_path_override: Option<String>,
) -> (r: (ApiDefinition, Vec<String>))
    ensures
        r.0.name == name,
        r.0.version@ == spec_version_of(*doc, version_override),
        r.0.base_path@ == spec_base_path_of(*doc, base_path_override),
        spec_upstream_rel(name@, *doc, r.0.upstream),
        r.0.routes@.len() == spec_slots(spec_paths_fields(*doc)).len(),
        forall|k: int|
            0 <= k < r.0.routes@.len() ==> spec_slot_route(
                spec_paths_fields(*doc),
                spec_slots(spec_paths_fields(*doc))[k],
                #[trigger] r.0.routes@[k],
            ),
        r.0.routes@.len() == 0 ==> r.0.policies is None,
        r.0.routes@.len() > 0 ==> ((r.0.policies is Some <==> r.0.routes@[0].policies is Some)
            && (r.0.policies matches Some(gp) ==> exists|op: JsonVal|
            #![auto]
            spec_policies_rel(op, r.0.routes@[0].policies) && spec_policies_rel(op, Some(gp)))),
        r.1.deep_view() == spec_warnings_fields(spec_paths_fields(*doc)),
        (r.0.metadata matches Some(m) && m matches JsonVal::Obj(mf) && mf@.len() == 2
            && mf@[0].key@ == "openapi_version"@ && (mf@[0].val matches JsonVal::Str(s) && s@ == (
        match spec_get(*doc, "openapi"@) {
            Option::Some(JsonVal::Str(v)) => v@,
            _ => "3.0.0"@,
        })) && mf@[1].key@ == "info"@ && (match spec_get(*doc, "info"@) {
            Option::Some(v) => json_equiv(mf@[1].val, v),
            Option::None => mf@[1].val is Null,
        })),
{
    let version: String = match &version_override {
        Some(v) => v.clone(),
        None => {
            match doc.get("info") {
                Some(info) => match info.get("version") {
                    Some(vv) => match vv.as_str() {
                        Some(s) => s.clone(),
                        None => String::from_str("1.0.0"),
                    },
                    None => String::from_str("1.0.0"),
                },
                None => String::from_str("1.0.0"),
            }
        },
    };
    let base_path: String = match &base_path_override {
        Some(b) => b.clone(),
        None => {
            let from_url: Option<String> = match doc.get("servers") {
                Some(v) => match v.as_array() {
                    Some(a) => {
                        if a.len() > 0 {
                            match a[0].get("url") {
                                Some(uv) => match uv.as_str() {
                                    Some(u) => {
                                        match parse_url(u.as_str()) {
                                            Some(p) => Some(p.path),
                                            None => {
                                                let n = u.unicode_len();
                                                if n > 0 && u.as_str().get_char(0) == '/' {
                                                    Some(u.clone())
                                                } else {
                                                    None
                                                }
                                            },
                                        }
                                    },
                                    None => None,
                                },
                                None => None,
                            }
                        } else {
                            None
                        }
                    },
                    None => None,
                },
                None => None,
            };
            match from_url {
                Some(p) => p,
                None => String::from_str("/"),
            }
        },
    };
    let upstream = upstream_from_doc(name.as_str(), doc);
    let mut routes: Vec<ApiRoute> = Vec::new();
    let mut warnings: Vec<String> = Vec::new();
    let mut global_policies: Option<ApiPolicies> = None;
    let ghost pfields = spec_paths_fields(*doc);
    match doc.get("paths") {
        Some(paths_val) => {
            match paths_val.as_object() {
                Some(fs) => {
                    let fn_count = fs.len();
                    let mut i: usize = 0;
                    while i < fn_count
                        invariant
                            i <= fn_count,
                            fn_count == fs@.len(),
                            pfields == fs@,
                            routes@.len() == spec_slots(fs@.take(i as int)).len(),
                            warnings.deep_view() == spec_warnings_fields(fs@.take(i as int)),
                            forall|k: int|
                                0 <= k < routes@.len() ==> spec_slot_route(
                                    fs@,
                                    spec_slots(fs@.take(i as int))[k],
                                    #[trigger] routes@[k],
                                ),
                            routes@.len() == 0 ==> global_policies is None,
                            routes@.len() > 0 ==> ((global_policies is Some
                                <==> routes@[0].policies is Some) && (
                            global_policies matches Some(gp) ==> exists|op: JsonVal|
                                #![auto]
                                spec_policies_rel(op, routes@[0].policies) && spec_policies_rel(
                                    op,
                                    Some(gp),
                                ))),
                        decreases fn_count - i,
                    {
                        let ghost routes_before_item = routes@;
                        let ghost warnings_before_item = warnings.deep_view();
                        let item = &fs[i].val;
                        let mut m: usize = 0;
                        while m < 7
                            invariant
                                m <= 7,
                                i < fn_count,
                                fn_count == fs@.len(),
                                pfields == fs@,
                                *item == fs@[i as int].val,
                                routes@.len() == routes_before_item.len()
                                    + spec_item_slots_upto(i as int, *item, m as int).len(),
                                routes_before_item.len() == spec_slots(
                                    fs@.take(i as int),
                                ).len(),
                                routes@.take(routes_before_item.len() as int)
                                    == routes_before_item,
                                warnings.deep_view() == warnings_before_item
                                    + spec_item_warnings_upto(*item, m as int),
                                warnings_before_item == spec_warnings_fields(fs@.take(i as int)),
                                forall|k: int|
                                    0 <= k < routes_before_item.len() ==> spec_slot_route(
                                        fs@,
                                        spec_slots(fs@.take(i as int))[k],
                                        #[trigger] routes@[k],
                                    ),
                                forall|k: int|
                                    routes_before_item.len() <= k < routes@.len()
                                        ==> spec_slot_route(
                                        fs@,
                                        spec_item_slots_upto(i as int, *item, m as int)[k
                                            - routes_before_item.len()],
                                        #[trigger] routes@[k],
                                    ),
                                routes@.len() == 0 ==> global_policies is None,
                                routes@.len() > 0 ==> ((global_policies is Some
                                    <==> routes@[0].policies is Some) && (
                                global_policies matches Some(gp) ==> exists|op: JsonVal|
                                    #![auto]
                                    spec_policies_rel(op, routes@[0].policies)
                                        && spec_policies_rel(op, Some(gp)))),
                            decreases 7 - m,
                        {
                            let (mkey, mupper) = method_names(m);
                            match item.get(mkey) {
                                Some(op) => {
                                    let (policies, mut op_warnings) = extract_flowplane_policies(
                                        op,
                                    );
                                    let description: Option<String> = match op.get("summary") {
                                        Some(sv) => match sv.as_str() {
                                            Some(s) => Some(s.clone()),
                                            None => None,
                                        },
                                        None => match op.get("description") {
                                            Some(dv) => match dv.as_str() {
                                                Some(s) => Some(s.clone()),
                                                None => None,
                                            },
                                            None => None,
                                        },
                                    };
                                    if routes.len() == 0 {
                                        match &policies {
                                            Some(_) => {
                                                let (again, _w) = extract_flowplane_policies(op);
                                                global_policies = again;
                                            },
                                            None => {},
                                        }
                                    }
                                    let mut methods: Vec<String> = Vec::new();
                                    methods.push(String::from_str(mupper));
                                    proof {
                                        assert(methods.deep_view() =~= seq![
                                            spec_method_upper(m as int),
                                        ]);
                                    }
                                    let route = ApiRoute {
                                        path: fs[i].key.clone(),
                                        methods,
                                        description,
                                        policies,
                                    };
                                    let ghost routes_before = routes@;
                                    let ghost wb = warnings.deep_view();
                                    let ghost wbv = warnings@;
                                    let ghost opw = op_warnings.deep_view();
                                    let ghost otv = op_warnings@;
                                    routes.push(route);
                                    warnings.append(&mut op_warnings);
                                    proof {
                                        assert forall|k: int|
                                            0 <= k < warnings.deep_view().len()
                                            implies warnings.deep_view()[k] == (wb + opw)[k] by {
                                            if k < wbv.len() {
                                                assert(warnings@[k] == wbv[k]);
                                            } else {
                                                assert(warnings@[k] == otv[k - wbv.len()]);
                                            }
                                        }
                                        assert(warnings.deep_view() =~= wb + opw);
                                        assert(spec_item_slots_upto(i as int, *item, m + 1)
                                            =~= spec_item_slots_upto(
                                            i as int,
                                            *item,
                                            m as int,
                                        ).push((i as int, m as int)));
                                        assert(spec_slot_route(
                                            fs@,
                                            (i as int, m as int),
                                            routes@[routes@.len() - 1],
                                        )) by {
                                            assert(match spec_get(
                                                fs@[i as int].val,
                                                spec_method_key(m as int),
                                            ) {
                                                Option::Some(o) => spec_route_from_op(
                                                    fs@[i as int].key@,
                                                    m as int,
                                                    o,
                                                    routes@[routes@.len() - 1],
                                                ),
                                                Option::None => false,
                                            });
                                        }
                                        assert(warnings.deep_view() =~= warnings_before_item
                                            + spec_item_warnings_upto(*item, m + 1));
                                        assert(routes@.take(routes_before_item.len() as int)
                                            =~= routes_before_item);
                                    }
                                },
                                None => {
                                    proof {
                                        assert(warnings.deep_view() =~= warnings_before_item
                                            + spec_item_warnings_upto(*item, m + 1));
                                        assert(spec_item_slots_upto(i as int, *item, m + 1)
                                            =~= spec_item_slots_upto(i as int, *item, m as int));
                                    }
                                },
                            }
                            m = m + 1;
                        }
                        proof {
                            assert(fs@.take(i + 1).drop_last() =~= fs@.take(i as int));
                            assert(fs@.take(i + 1).last() == fs@[i as int]);
                            assert(fs@.take(i + 1).len() - 1 == i as int);
                            assert(spec_slots(fs@.take(i + 1)) == spec_slots(fs@.take(i as int))
                                + spec_item_slots_upto(i as int, *item, 7));
                            assert(warnings.deep_view() =~= spec_warnings_fields(fs@.take(i + 1)));
                            let before_len = spec_slots(fs@.take(i as int)).len() as int;
                            assert forall|k: int| 0 <= k < routes@.len() implies spec_slot_route(
                                fs@,
                                spec_slots(fs@.take(i + 1))[k],
                                #[trigger] routes@[k],
                            ) by {
                                if k < before_len {
                                    assert(spec_slots(fs@.take(i + 1))[k] == spec_slots(
                                        fs@.take(i as int),
                                    )[k]);
                                } else {
                                    assert(spec_slots(fs@.take(i + 1))[k] == spec_item_slots_upto(
                                        i as int,
                                        *item,
                                        7,
                                    )[k - before_len]);
                                }
                            }
                        }
                        i = i + 1;
                    }
                    proof {
                        assert(fs@.take(fn_count as int) =~= fs@);
                    }
                },
                None => {
                    proof {
                        assert(pfields =~= Seq::<JsonField>::empty());
                    }
                },
            }
        },
        None => {
            proof {
                assert(pfields =~= Seq::<JsonField>::empty());
            }
        },
    }
    let openapi_version: String = match doc.get("openapi") {
        Some(v) => match v.as_str() {
            Some(s) => s.clone(),
            None => String::from_str("3.0.0"),
        },
        None => String::from_str("3.0.0"),
    };
    let info_val: JsonVal = match doc.get("info") {
        Some(v) => v.duplicate(),
        None => JsonVal::Null,
    };
    let mut mf: Vec<JsonField> = Vec::new();
    mf.push(
        JsonField { key: String::from_str("openapi_version"), val: JsonVal::Str(openapi_version) },
    );
    mf.push(JsonField { key: String::from_str("info"), val: info_val });
    let api = ApiDefinition {
        name,
        version,
        base_path,
        upstream,
        routes,
        policies: global_policies,
        metadata: Some(JsonVal::Obj(mf)),
    };
    (api, warnings)
}

/// Whether the document declares an OpenAPI 3.x version.
pub open spec fn spec_is_openapi3(doc: JsonVal) -> bool {
    match spec_get(doc, "openapi"@) {
        Option::Some(JsonVal::Str(v)) => spec_starts_with(v@, "3."@),
        _ => false,
    }
}

/// Imports a parsed OpenAPI document: only 3.x documents are accepted; the
/// response carries the produced definition, a fresh id, and the gathered
/// warnings (absent when there were none).
pub fn import_openapi(
    doc: &JsonVal,
    name: String,
    version_override: Option<String>,
    base_path_override: Option<String>,
) -> (r: Result<OpenApiImportResponse, ApiError>)
    ensures
        r is Ok <==> spec_is_openapi3(*doc),
        r matches Err(e) ==> e is BadRequest,
        r matches Ok(resp) ==> ({
            &&& resp.id@.len() == 36
            &&& resp.name@ == name@
            &&& resp.version@ == spec_version_of(*doc, version_override)
            &&& resp.base_path@ == spec_base_path_of(*doc, base_path_override)
            &&& spec_upstream_rel(name@, *doc, resp.upstream)
            &&& resp.routes@.len() == spec_slots(spec_paths_fields(*doc)).len()
            &&& forall|k: int|
                0 <= k < resp.routes@.len() ==> spec_slot_route(
                    spec_paths_fields(*doc),
                    spec_slots(spec_paths_fields(*doc))[k],
                    #[trigger] resp.routes@[k],
                )
            &&& (resp.routes@.len() == 0 ==> resp.policies is None)
            &&& (resp.routes@.len() > 0 ==> ((resp.policies is Some
                <==> resp.routes@[0].policies is Some) && (resp.policies matches Some(gp)
                ==> exists|op: JsonVal|
                #![auto]
                spec_policies_rel(op, resp.routes@[0].policies) && spec_policies_rel(
                    op,
                    Some(gp),
                ))))
            &&& (resp.metadata matches Some(mv) && mv matches JsonVal::Obj(mf) && mf@.len() == 2
                && mf@[0].key@ == "openapi_version"@ && (mf@[0].val matches JsonVal::Str(s) && s@
                == (match spec_get(*doc, "openapi"@) {
                Option::Some(JsonVal::Str(v)) => v@,
                _ => "3.0.0"@,
            })) && mf@[1].key@ == "info"@ && (match spec_get(*doc, "info"@) {
                Option::Some(v) => json_equiv(mf@[1].val, v),
                Option::None => mf@[1].val is Null,
            }))
            &&& (match resp.warnings {
                Some(w) => w.deep_view() == spec_warnings_fields(spec_paths_fields(*doc))
                    && w@.len() > 0,
                None => spec_warnings_fields(spec_paths_fields(*doc)).len() == 0,
            })
        }),
{
    let ok = match doc.get("openapi") {
        Some(v) => match v.as_str() {
            Some(s) => starts_with(s.as_str(), "3."),
            None => false,
        },
        None => false,
    };
    if !ok {
        return Err(
            ApiError::BadRequest(
                String::from_str("Only OpenAPI 3.x specifications are supported"),
            ),
        );
    }
    let (api, warnings) = openapi_to_api_definition(doc, name, version_override, base_path_override);
    let id = crate::platform_transformers::new_uuid();
    let created_at = crate::platform_transformers::now_rfc3339();
    let warnings_opt: Option<Vec<String>> = if warnings.len() == 0 {
        None
    } else {
        Some(warnings)
    };
    Ok(
        OpenApiImportResponse {
            id,
            name: api.name,
            version: api.version,
            base_path: api.base_path,
            upstream: api.upstream,
            routes: api.routes,
            policies: api.policies,
            metadata: api.metadata,
            warnings: warnings_opt,
            created_at,
        },
    )
}

/// The legacy gateway import path answers with a permanent redirect to the
/// Platform import path, preserving the `name` query.
pub fn gateway_redirect_location(name: &str) -> (r: (u16, String))
    ensures
        r.0 == 308,
        r.1@ == "/api/v1/platform/import/openapi?name="@ + name@,
{
    (308, String::from_str("/api/v1/platform/import/openapi?name=").concat(name))
}

} // verus!
