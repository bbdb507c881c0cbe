//! A structured value model for dynamic documents: JSON-shaped data that the
//! OpenAPI importer reads and that filter configurations carry as payloads.
//! Unverified callers parse text into this shape at the boundary; everything
//! the library does with a document is verified against it.

use vstd::prelude::*;

verus! {

/// One key/value field of an object.
pub struct JsonField {
    pub key: String,
    pub val: JsonVal,
}

/// A JSON-shaped value.  Numbers are unsigned integers: that is the only
/// numeric shape the library reads out of a document.
pub enum JsonVal {
    Null,
    Bool(bool),
    UInt(u64),
    Str(String),
    Arr(Vec<JsonVal>),
    Obj(Vec<JsonField>),
}

/// Structural equivalence of two values: equal shapes, equal scalars, and
/// character-wise equal strings.
pub open spec fn json_equiv(a: JsonVal, b: JsonVal) -> bool
    decreases a,
{
    match (a, b) {
        (JsonVal::Null, JsonVal::Null) => true,
        (JsonVal::Bool(x), JsonVal::Bool(y)) => x == y,
        (JsonVal::UInt(x), JsonVal::UInt(y)) => x == y,
        (JsonVal::Str(x), JsonVal::Str(y)) => x@ == y@,
        (JsonVal::Arr(x), JsonVal::Arr(y)) => {
            &&& x@.len() == y@.len()
            &&& forall|i: int| 0 <= i < x@.len() ==> json_equiv(#[trigger] x@[i], y@[i])
        },
        (JsonVal::Obj(x), JsonVal::Obj(y)) => {
            &&& x@.len() == y@.len()
            &&& forall|i: int|
                0 <= i < x@.len() ==> (#[trigger] x@[i]).key@ == y@[i].key@ && json_equiv(
                    x@[i].val,
                    y@[i].val,
                )
        },
        _ => false,
    }
}

/// Equivalence is symmetric.
pub proof fn lemma_json_equiv_sym(a: JsonVal, b: JsonVal)
    requires
        json_equiv(a, b),
    ensures
        json_equiv(b, a),
    decreases a,
{
    match (a, b) {
        (JsonVal::Arr(x), JsonVal::Arr(y)) => {
            assert forall|i: int| 0 <= i < y@.len() implies json_equiv(#[trigger] y@[i], x@[i]) by {
                lemma_json_equiv_sym(x@[i], y@[i]);
            }
        },
        (JsonVal::Obj(x), JsonVal::Obj(y)) => {
            assert forall|i: int| 0 <= i < y@.len() implies (#[trigger] y@[i]).key@ == x@[i].key@
                && json_equiv(y@[i].val, x@[i].val) by {
                lemma_json_equiv_sym(x@[i].val, y@[i].val);
            }
        },
        _ => {},
    }
}

/// Equivalence is transitive.
pub proof fn lemma_json_equiv_trans(a: JsonVal, b: JsonVal, c: JsonVal)
    requires
        json_equiv(a, b),
        json_equiv(b, c),
    ensures
        json_equiv(a, c),
    decreases a,
{
    match (a, b, c) {
        (JsonVal::Arr(x), JsonVal::Arr(y), JsonVal::Arr(z)) => {
            assert forall|i: int| 0 <= i < x@.len() implies json_equiv(#[trigger] x@[i], z@[i]) by {
                lemma_json_equiv_trans(x@[i], y@[i], z@[i]);
            }
        },
        (JsonVal::Obj(x), JsonVal::Obj(y), JsonVal::Obj(z)) => {
            assert forall|i: int| 0 <= i < x@.len() implies (#[trigger] x@[i]).key@ == z@[i].key@
                && json_equiv(x@[i].val, z@[i].val) by {
                lemma_json_equiv_trans(x@[i].val, y@[i].val, z@[i].val);
            }
        },
        _ => {},
    }
}

impl JsonVal {
    /// Builds a structurally equivalent copy of the value.
    pub fn duplicate(&self) -> (r: Self)
        ensures
            json_equiv(r, *self),
        decreases *self,
    {
        match self {
            JsonVal::Null => JsonVal::Null,
            JsonVal::Bool(b) => JsonVal::Bool(*b),
            JsonVal::UInt(u) => JsonVal::UInt(*u),
            JsonVal::Str(s) => JsonVal::Str(s.clone()),
            JsonVal::Arr(v) => {
                let n = v.len();
                let mut out: Vec<JsonVal> = Vec::new();
                let mut i: usize = 0;
                while i < n
                    invariant
                        i <= n,
                        n == v@.len(),
                        *self == JsonVal::Arr(*v),
                        out@.len() == i,
                        forall|j: int| 0 <= j < i ==> json_equiv(#[trigger] out@[j], v@[j]),
                    decreases n - i,
                {
                    let elem = &v[i];
                    proof {
                        assert(*v == self->Arr_0);
                        assert(decreases_to!(*self => self->Arr_0));
                        assert(decreases_to!(*v => v@[i as int]));
                    }
                    out.push(elem.duplicate());
                    i = i + 1;
                }
                JsonVal::Arr(out)
            },
            JsonVal::Obj(fs) => {
                let n = fs.len();
                let mut out: Vec<JsonField> = Vec::new();
                let mut i: usize = 0;
                while i < n
                    invariant
                        i <= n,
                        n == fs@.len(),
                        *self == JsonVal::Obj(*fs),
                        out@.len() == i,
                        forall|j: int|
                            0 <= j < i ==> (#[trigger] out@[j]).key@ == fs@[j].key@ && json_equiv(
                                out@[j].val,
                                fs@[j].val,
                            ),
                    decreases n - i,
                {
                    let field = &fs[i];
                    proof {
                        assert(*fs == self->Obj_0);
                        assert(decreases_to!(*self => self->Obj_0));
                        assert(decreases_to!(*fs => fs@[i as int]));
                        assert(decreases_to!(fs@[i as int] => fs@[i as int].val));
                    }
                    out.push(JsonField { key: field.key.clone(), val: field.val.duplicate() });
                    i = i + 1;
                }
                JsonVal::Obj(out)
            },
        }
    }
}

/// The value of the first field named `k`, if any, of a field list.
pub open spec fn spec_get_fields(fs: Seq<JsonField>, k: Seq<char>) -> Option<JsonVal>
    decreases fs.len(),
{
    if fs.len() == 0 {
        None
    } else if fs[0].key@ == k {
        Some(fs[0].val)
    } else {
        spec_get_fields(fs.subrange(1, fs.len() as int), k)
    }
}

/// The value at key `k` when the document is an object holding it.
pub open spec fn spec_get(j: JsonVal, k: Seq<char>) -> Option<JsonVal> {
    match j {
        JsonVal::Obj(fs) => spec_get_fields(fs@, k),
        _ => None,
    }
}

proof fn lemma_get_fields_at(fs: Seq<JsonField>, k: Seq<char>, i: int)
    requires
        0 <= i < fs.len(),
        forall|j: int| 0 <= j < i ==> (#[trigger] fs[j]).key@ != k,
        fs[i].key@ == k,
    ensures
        spec_get_fields(fs, k) == Some(fs[i].val),
    decreases i,
{
    if i > 0 {
        let rest = fs.subrange(1, fs.len() as int);
        assert(rest[i - 1] == fs[i]);
        assert(forall|j: int| 0 <= j < i - 1 ==> (#[trigger] rest[j]).key@ != k) by {
            assert(forall|j: int| 0 <= j < i - 1 ==> rest[j] == fs[j + 1]);
        }
        lemma_get_fields_at(rest, k, i - 1);
    }
}

proof fn lemma_get_fields_none(fs: Seq<JsonField>, k: Seq<char>)
    requires
        forall|j: int| 0 <= j < fs.len() ==> (#[trigger] fs[j]).key@ != k,
    ensures
        spec_get_fields(fs, k) is None,
    decreases fs.len(),
{
    if fs.len() > 0 {
        let rest = fs.subrange(1, fs.len() as int);
        assert(forall|j: int| 0 <= j < rest.len() ==> (#[trigger] rest[j]).key@ != k) by {
            assert(forall|j: int| 0 <= j < rest.len() ==> rest[j] == fs[j + 1]);
        }
        lemma_get_fields_none(rest, k);
    }
}

impl JsonVal {
    /// Looks up `key` in an object; `None` on any other shape or when the key
    /// is absent.
    pub fn get<'a>(&'a self, key: &str) -> (r: Option<&'a JsonVal>)
        ensures
            match r {
                Some(v) => spec_get(*self, key@) == Some(*v),
                None => spec_get(*self, key@) is None,
            },
    {
        match self {
            JsonVal::Obj(fs) => {
                let n = fs.len();
                let mut i: usize = 0;
                while i < n
                    invariant
                        i <= n,
                        n == fs@.len(),
                        *self == JsonVal::Obj(*fs),
                        forall|j: int| 0 <= j < i ==> (#[trigger] fs@[j]).key@ != key@,
                    decreases n - i,
                {
                    if crate::text::str_eq(fs[i].key.as_str(), key) {
                        proof {
                            lemma_get_fields_at(fs@, key@, i as int);
                            assert(spec_get(*self, key@) == Some(fs@[i as int].val));
                        }
                        return Some(&fs[i].val);
                    }
                    i = i + 1;
                }
                proof {
                    lemma_get_fields_none(fs@, key@);
                }
                None
            },
            _ => None,
        }
    }

    /// The string payload, when the value is a string.
    pub fn as_str(&self) -> (r: Option<&String>)
        ensures
            match r {
                Some(s) => *self matches JsonVal::Str(t) && t == *s,
                None => !(*self is Str),
            },
    {
        match self {
            JsonVal::Str(s) => Some(s),
            _ => None,
        }
    }

    /// The integer payload, when the value is an unsigned number.
    pub fn as_u64(&self) -> (r: Option<u64>)
        ensures
            match r {
                Some(u) => *self == JsonVal::UInt(u),
                None => !(*self is UInt),
            },
    {
        match self {
            JsonVal::UInt(u) => Some(*u),
            _ => None,
        }
    }

    /// The boolean payload, when the value is a boolean.
    pub fn as_bool(&self) -> (r: Option<bool>)
        ensures
            match r {
                Some(b) => *self == JsonVal::Bool(b),
                None => !(*self is Bool),
            },
    {
        match self {
            JsonVal::Bool(b) => Some(*b),
            _ => None,
        }
    }

    /// The elements, when the value is an array.
    pub fn as_array(&self) -> (r: Option<&Vec<JsonVal>>)
        ensures
            match r {
                Some(v) => *self matches JsonVal::Arr(w) && w == *v,
                None => !(*self is Arr),
            },
    {
        match self {
            JsonVal::Arr(v) => Some(v),
            _ => None,
        }
    }

    /// The fields, when the value is an object.
    pub fn as_object(&self) -> (r: Option<&Vec<JsonField>>)
        ensures
            match r {
                Some(v) => *self matches JsonVal::Obj(w) && w == *v,
                None => !(*self is Obj),
            },
    {
        match self {
            JsonVal::Obj(v) => Some(v),
            _ => None,
        }
    }
}

} // verus!
