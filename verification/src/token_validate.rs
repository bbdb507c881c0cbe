//! Personal access token requests and their validation: token names, scope
//! strings, token status, and the scope check the authorization layer runs.

use vstd::prelude::*;

use crate::errors::{validation_error, ApiError};
use crate::text::str_eq;

verus! {

pub open spec fn is_lower_alpha(c: char) -> bool {
    'a' <= c <= 'z'
}

pub open spec fn is_name_char(c: char) -> bool {
    ('a' <= c <= 'z') || ('A' <= c <= 'Z') || ('0' <= c <= '9') || c == '_' || c == '-'
}

/// A token name: 3 to 64 characters, letters, digits, underscore or dash.
pub open spec fn spec_token_name_valid(s: Seq<char>) -> bool {
    3 <= s.len() <= 64 && forall|i: int| 0 <= i < s.len() ==> is_name_char(#[trigger] s[i])
}

/// A scope string: a lower-case letter, then lower-case letters or dashes, a
/// colon, and one or more lower-case letters.
pub open spec fn spec_scope_valid(s: Seq<char>) -> bool {
    exists|k: int|
        {
            &&& 1 <= k < s.len() - 1
            &&& #[trigger] s[k] == ':'
            &&& is_lower_alpha(s[0])
            &&& forall|i: int| 1 <= i < k ==> (is_lower_alpha(#[trigger] s[i]) || s[i] == '-')
            &&& forall|j: int| k < j < s.len() ==> is_lower_alpha(#[trigger] s[j])
        }
}

/// Accepts exactly the well-formed token names.
pub fn validate_token_name(name: &str) -> (r: Result<(), ApiError>)
    ensures
        r is Ok <==> spec_token_name_valid(name@),
        r matches Err(e) ==> e is Validation,
{
    let n = name.unicode_len();
    if n < 3 || n > 64 {
        return Err(validation_error("invalid_token_name"));
    }
    let mut i: usize = 0;
    while i < n
        invariant
            i <= n,
            n == name@.len(),
            forall|j: int| 0 <= j < i ==> is_name_char(#[trigger] name@[j]),
        decreases n - i,
    {
        let c = name.get_char(i);
        if !(('a' <= c && c <= 'z') || ('A' <= c && c <= 'Z') || ('0' <= c && c <= '9') || c == '_'
            || c == '-') {
            return Err(validation_error("invalid_token_name"));
        }
        i = i + 1;
    }
    Ok(())
}

/// Accepts exactly the well-formed scope strings.
pub fn validate_scope(scope: &str) -> (r: Result<(), ApiError>)
    ensures
        r is Ok <==> spec_scope_valid(scope@),
        r matches Err(e) ==> e is Validation,
{
    let n = scope.unicode_len();
    if n < 3 {
        return Err(validation_error("invalid_scope"));
    }
    let c0 = scope.get_char(0);
    if !('a' <= c0 && c0 <= 'z') {
        return Err(validation_error("invalid_scope"));
    }
    // scan the part before the colon
    let mut i: usize = 1;
    while i < n
        invariant
            1 <= i <= n,
            n == scope@.len(),
            is_lower_alpha(scope@[0]),
            forall|j: int|
                1 <= j < i ==> ((is_lower_alpha(#[trigger] scope@[j]) || scope@[j] == '-')
                    && scope@[j] != ':'),
        ensures
            1 <= i <= n,
            n == scope@.len(),
            is_lower_alpha(scope@[0]),
            forall|j: int|
                1 <= j < i ==> ((is_lower_alpha(#[trigger] scope@[j]) || scope@[j] == '-')
                    && scope@[j] != ':'),
            i < n ==> scope@[i as int] == ':',
        decreases n - i,
    {
        let c = scope.get_char(i);
        if c == ':' {
            break;
        }
        if !(('a' <= c && c <= 'z') || c == '-') {
            proof {
                assert forall|k: int|
                    1 <= k < scope@.len() - 1 && #[trigger] scope@[k] == ':' implies !((forall|
                    t: int,
                |
                    1 <= t < k ==> (is_lower_alpha(#[trigger] scope@[t]) || scope@[t] == '-')) && (
                forall|t: int| k < t < scope@.len() ==> is_lower_alpha(#[trigger] scope@[t]))) by {
                    if k <= i as int {
                        assert(!is_lower_alpha(scope@[i as int]) && scope@[i as int] != '-'
                            && scope@[i as int] != ':');
                    } else {
                        assert(!(is_lower_alpha(scope@[i as int]) || scope@[i as int] == '-'));
                    }
                }
            }
            return Err(validation_error("invalid_scope"));
        }
        i = i + 1;
    }
    if i >= n {
        // no colon at all
        return Err(validation_error("invalid_scope"));
    }
    // scope[i] is the first colon; the suffix must be non-empty lower-case letters
    if i + 1 >= n {
        return Err(validation_error("invalid_scope"));
    }
    let mut j: usize = i + 1;
    while j < n
        invariant
            i + 1 <= j <= n,
            i + 1 < n,
            n == scope@.len(),
            is_lower_alpha(scope@[0]),
            scope@[i as int] == ':',
            forall|t: int|
                1 <= t < i ==> ((is_lower_alpha(#[trigger] scope@[t]) || scope@[t] == '-')
                    && scope@[t] != ':'),
            forall|t: int| (i as int) < t < j ==> is_lower_alpha(#[trigger] scope@[t]),
        decreases n - j,
    {
        let c = scope.get_char(j);
        if !('a' <= c && c <= 'z') {
            proof {
                assert forall|k: int|
                    1 <= k < scope@.len() - 1 && #[trigger] scope@[k] == ':' implies !((forall|
                    t: int,
                |
                    1 <= t < k ==> (is_lower_alpha(#[trigger] scope@[t]) || scope@[t] == '-')) && (
                forall|t: int| k < t < scope@.len() ==> is_lower_alpha(#[trigger] scope@[t]))) by {
                    if k < i as int {
                        assert(scope@[k] != ':');
                        assert(false);
                    } else if k == i as int {
                        assert(!is_lower_alpha(scope@[j as int]));
                    } else {
                        assert(!(is_lower_alpha(scope@[i as int]) || scope@[i as int] == '-'));
                    }
                }
            }
            return Err(validation_error("invalid_scope"));
        }
        j = j + 1;
    }
    proof {
        assert(spec_scope_valid(scope@)) by {
            assert(1 <= i as int && (i as int) < scope@.len() - 1 && scope@[i as int] == ':'
                && is_lower_alpha(scope@[0]) && (forall|t: int|
                1 <= t < i ==> (is_lower_alpha(#[trigger] scope@[t]) || scope@[t] == '-')) && (
            forall|t: int|
                (i as int) < t < scope@.len() ==> is_lower_alpha(#[trigger] scope@[t])));
        }
    }
    Ok(())
}

/// Every scope of a list is well-formed.
pub open spec fn spec_scopes_valid(scopes: Seq<Seq<char>>) -> bool {
    forall|i: int| 0 <= i < scopes.len() ==> spec_scope_valid(#[trigger] scopes[i])
}

/// Accepts exactly the lists whose scopes are all well-formed.
pub fn validate_scopes_list(scopes: &Vec<String>) -> (r: Result<(), ApiError>)
    ensures
        r is Ok <==> spec_scopes_valid(scopes.deep_view()),
        r matches Err(e) ==> e is Validation,
{
    let mut i: usize = 0;
    while i < scopes.len()
        invariant
            i <= scopes@.len(),
            forall|j: int| 0 <= j < i ==> spec_scope_valid((#[trigger] scopes@[j])@),
        decreases scopes@.len() - i,
    {
        match validate_scope(scopes[i].as_str()) {
            Ok(_) => {},
            Err(e) => {
                assert(!spec_scope_valid(scopes.deep_view()[i as int]));
                return Err(e);
            },
        }
        i = i + 1;
    }
    assert forall|j: int| 0 <= j < scopes.deep_view().len() implies spec_scope_valid(
        #[trigger] scopes.deep_view()[j],
    ) by {
        assert(scopes.deep_view()[j] == (scopes@[j])@);
    }
    Ok(())
}

/// A request to mint a token.  Timestamps are carried as text.
pub struct CreateTokenRequest {
    pub name: String,
    pub description: Option<String>,
    pub expires_at: Option<String>,
    pub scopes: Vec<String>,
    pub created_by: Option<String>,
}

pub open spec fn create_token_request_valid(r: CreateTokenRequest) -> bool {
    &&& spec_token_name_valid(r.name@)
    &&& r.scopes@.len() >= 1
    &&& spec_scopes_valid(r.scopes.deep_view())
}

impl CreateTokenRequest {
    /// Accepts exactly the requests with a well-formed name and a non-empty
    /// list of well-formed scopes.
    pub fn validate(&self) -> (r: Result<(), ApiError>)
        ensures
            r is Ok <==> create_token_request_valid(*self),
            r matches Err(e) ==> e is Validation,
    {
        match validate_token_name(self.name.as_str()) {
            Ok(_) => {},
            Err(e) => {
                return Err(e);
            },
        }
        if self.scopes.len() < 1 {
            return Err(validation_error("scopes must not be empty"));
        }
        validate_scopes_list(&self.scopes)
    }
}

/// A partial update of a token; `None` fields are left unchanged.  A doubled
/// option distinguishes clearing the expiry from leaving it alone.
pub struct UpdateTokenRequest {
    pub name: Option<String>,
    pub description: Option<String>,
    pub status: Option<String>,
    pub expires_at: Option<Option<String>>,
    pub scopes: Option<Vec<String>>,
}

pub open spec fn spec_status_valid(s: Seq<char>) -> bool {
    s == "active"@ || s == "revoked"@ || s == "expired"@
}

pub open spec fn update_token_request_valid(r: UpdateTokenRequest) -> bool {
    &&& (r.name matches Some(n) ==> spec_token_name_valid(n@))
    &&& (r.scopes matches Some(s) ==> spec_scopes_valid(s.deep_view()))
    &&& (r.status matches Some(s) ==> spec_status_valid(s@))
}

impl UpdateTokenRequest {
    /// Accepts exactly the updates whose present fields are well-formed: the
    /// name pattern, every scope, and a status of `active`, `revoked` or
    /// `expired`.
    pub fn validate(&self) -> (r: Result<(), ApiError>)
        ensures
            r is Ok <==> update_token_request_valid(*self),
            r matches Err(e) ==> e is Validation,
    {
        match &self.name {
            Some(n) => {
                match validate_token_name(n.as_str()) {
                    Ok(_) => {},
                    Err(e) => {
                        return Err(e);
                    },
                }
            },
            None => {},
        }
        match &self.scopes {
            Some(s) => {
                match validate_scopes_list(s) {
                    Ok(_) => {},
                    Err(e) => {
                        return Err(e);
                    },
                }
            },
            None => {},
        }
        match &self.status {
            Some(s) => {
                if !(str_eq(s.as_str(), "active") || str_eq(s.as_str(), "revoked") || str_eq(
                    s.as_str(),
                    "expired",
                )) {
                    return Err(validation_error("invalid_status"));
                }
            },
            None => {},
        }
        Ok(())
    }
}

/// Whether every required scope was granted; the authorization layer demands
/// all scopes listed for a route.
pub fn has_all_scopes(required: &Vec<String>, granted: &Vec<String>) -> (r: bool)
    ensures
        r == forall|i: int|
            0 <= i < required@.len() ==> granted.deep_view().contains(
                #[trigger] required.deep_view()[i],
            ),
{
    let mut i: usize = 0;
    while i < required.len()
        invariant
            i <= required@.len(),
            forall|j: int|
                0 <= j < i ==> granted.deep_view().contains(#[trigger] required.deep_view()[j]),
        decreases required@.len() - i,
    {
        let mut found = false;
        let mut k: usize = 0;
        while k < granted.len()
            invariant
                k <= granted@.len(),
                i < required@.len(),
                found ==> granted.deep_view().contains(required.deep_view()[i as int]),
                !found ==> forall|t: int|
                    0 <= t < k ==> (#[trigger] granted@[t])@ != required@[i as int]@,
            decreases granted@.len() - k,
        {
            if str_eq(granted[k].as_str(), required[i].as_str()) {
                proof {
                    assert(granted.deep_view()[k as int] == required.deep_view()[i as int]);
                }
                found = true;
            }
            k = k + 1;
        }
        if !found {
            proof {
                assert forall|t: int|
                    0 <= t < granted.deep_view().len() implies granted.deep_view()[t]
                    != required.deep_view()[i as int] by {
                    assert((granted@[t])@ != required@[i as int]@);
                }
                assert(!granted.deep_view().contains(required.deep_view()[i as int]));
            }
            return false;
        }
        i = i + 1;
    }
    true
}

/// Authentication is demanded for every request except a CORS preflight:
/// `OPTIONS` requests bypass it.
pub fn requires_authentication(method: &str) -> (r: bool)
    ensures
        r == (method@ != "OPTIONS"@),
{
    !str_eq(method, "OPTIONS")
}

} // verus!
