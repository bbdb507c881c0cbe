//! Scoped filter configurations: per-virtual-host, per-route and
//! per-weighted-cluster overrides of HTTP filter behaviour, carried as a list
//! of filter-name / configuration pairs.

use vstd::prelude::*;

use crate::json::{json_equiv, JsonVal};

verus! {

/// One filter override.  The local rate limit, the override the route API
/// exercises directly, is modelled field by field; any other filter carries
/// its configuration as a structured value.
pub enum ScopedFilterConfig {
    LocalRateLimit {
        stat_prefix: String,
        max_tokens: u32,
        tokens_per_fill: Option<u32>,
        fill_interval_ms: u64,
        status_code: Option<u32>,
    },
    Other { value: JsonVal },
}

/// A filter name paired with its scoped configuration.
pub struct ScopedFilterEntry {
    pub filter: String,
    pub config: ScopedFilterConfig,
}

pub open spec fn filter_config_equiv(a: ScopedFilterConfig, b: ScopedFilterConfig) -> bool {
    match (a, b) {
        (
            ScopedFilterConfig::LocalRateLimit {
                stat_prefix: ap,
                max_tokens: am,
                tokens_per_fill: at,
                fill_interval_ms: af,
                status_code: ac,
            },
            ScopedFilterConfig::LocalRateLimit {
                stat_prefix: bp,
                max_tokens: bm,
                tokens_per_fill: bt,
                fill_interval_ms: bf,
                status_code: bc,
            },
        ) => ap@ == bp@ && am == bm && at == bt && af == bf && ac == bc,
        (ScopedFilterConfig::Other { value: av }, ScopedFilterConfig::Other { value: bv }) => {
            json_equiv(av, bv)
        },
        _ => false,
    }
}

pub open spec fn filter_entry_equiv(a: ScopedFilterEntry, b: ScopedFilterEntry) -> bool {
    a.filter@ == b.filter@ && filter_config_equiv(a.config, b.config)
}

/// Pointwise equivalence of two override lists.
pub open spec fn filters_equiv(a: Seq<ScopedFilterEntry>, b: Seq<ScopedFilterEntry>) -> bool {
    a.len() == b.len() && forall|i: int|
        0 <= i < a.len() ==> filter_entry_equiv(#[trigger] a[i], b[i])
}

pub proof fn lemma_filter_entry_equiv_trans(a: ScopedFilterEntry, b: ScopedFilterEntry, c: ScopedFilterEntry)
    requires
        filter_entry_equiv(a, b),
        filter_entry_equiv(b, c),
    ensures
        filter_entry_equiv(a, c),
{
    match (a.config, b.config, c.config) {
        (
            ScopedFilterConfig::Other { value: av },
            ScopedFilterConfig::Other { value: bv },
            ScopedFilterConfig::Other { value: cv },
        ) => {
            crate::json::lemma_json_equiv_trans(av, bv, cv);
        },
        _ => {},
    }
}

pub proof fn lemma_filter_entry_equiv_sym(a: ScopedFilterEntry, b: ScopedFilterEntry)
    requires
        filter_entry_equiv(a, b),
    ensures
        filter_entry_equiv(b, a),
{
    match (a.config, b.config) {
        (ScopedFilterConfig::Other { value: av }, ScopedFilterConfig::Other { value: bv }) => {
            crate::json::lemma_json_equiv_sym(av, bv);
        },
        _ => {},
    }
}

pub proof fn lemma_filters_equiv_sym(a: Seq<ScopedFilterEntry>, b: Seq<ScopedFilterEntry>)
    requires
        filters_equiv(a, b),
    ensures
        filters_equiv(b, a),
{
    assert forall|i: int| 0 <= i < b.len() implies filter_entry_equiv(#[trigger] b[i], a[i]) by {
        lemma_filter_entry_equiv_sym(a[i], b[i]);
    }
}

pub proof fn lemma_filters_equiv_trans(a: Seq<ScopedFilterEntry>, b: Seq<ScopedFilterEntry>, c: Seq<ScopedFilterEntry>)
    requires
        filters_equiv(a, b),
        filters_equiv(b, c),
    ensures
        filters_equiv(a, c),
{
    assert forall|i: int| 0 <= i < a.len() implies filter_entry_equiv(#[trigger] a[i], c[i]) by {
        lemma_filter_entry_equiv_trans(a[i], b[i], c[i]);
    }
}

impl ScopedFilterConfig {
    /// Builds an equivalent copy of the configuration.
    pub fn duplicate(&self) -> (r: Self)
        ensures
            filter_config_equiv(r, *self),
            filter_config_equiv(*self, r),
    {
        let r = match self {
            ScopedFilterConfig::LocalRateLimit {
                stat_prefix,
                max_tokens,
                tokens_per_fill,
                fill_interval_ms,
                status_code,
            } => ScopedFilterConfig::LocalRateLimit {
                stat_prefix: stat_prefix.clone(),
                max_tokens: *max_tokens,
                tokens_per_fill: *tokens_per_fill,
                fill_interval_ms: *fill_interval_ms,
                status_code: *status_code,
            },
            ScopedFilterConfig::Other { value } => {
                ScopedFilterConfig::Other { value: value.duplicate() }
            },
        };
        proof {
            match (&r, self) {
                (
                    ScopedFilterConfig::Other { value: rv },
                    ScopedFilterConfig::Other { value: sv },
                ) => {
                    crate::json::lemma_json_equiv_sym(*rv, *sv);
                },
                _ => {},
            }
        }
        r
    }
}

impl ScopedFilterEntry {
    /// Builds an equivalent copy of the entry.
    pub fn duplicate(&self) -> (r: Self)
        ensures
            filter_entry_equiv(r, *self),
            filter_entry_equiv(*self, r),
    {
        ScopedFilterEntry { filter: self.filter.clone(), config: self.config.duplicate() }
    }
}

/// Copies an override list entry by entry.
pub fn dup_filters(v: &Vec<ScopedFilterEntry>) -> (r: Vec<ScopedFilterEntry>)
    ensures
        filters_equiv(r@, v@),
        filters_equiv(v@, r@),
{
    let mut out: Vec<ScopedFilterEntry> = Vec::new();
    let mut i: usize = 0;
    while i < v.len()
        invariant
            i <= v@.len(),
            out@.len() == i,
            forall|j: int| 0 <= j < i ==> filter_entry_equiv(#[trigger] out@[j], v@[j]),
            forall|j: int| 0 <= j < i ==> filter_entry_equiv(#[trigger] v@[j], out@[j]),
        decreases v@.len() - i,
    {
        out.push(v[i].duplicate());
        i = i + 1;
    }
    out
}

} // verus!
