//! The versioned repository: rows keyed by a stable name, each write adding a
//! new row whose per-name version starts at 1 and increments by one, with the
//! whole history retained.  Creation fails on a taken name; update and delete
//! address a row id.

use vstd::prelude::*;

use crate::errors::ApiError;

verus! {

/// One stored row: a unique row id, the resource name, the per-name version,
/// and the stored payload.
pub struct Record<T> {
    pub id: String,
    pub name: String,
    pub version: u64,
    pub data: T,
}

/// How many rows of `s` carry the name `n`.
pub open spec fn count_with_name<T>(s: Seq<Record<T>>, n: Seq<char>) -> nat
    decreases s.len(),
{
    if s.len() == 0 {
        0
    } else {
        count_with_name(s.drop_last(), n) + if s.last().name@ == n {
            1nat
        } else {
            0nat
        }
    }
}

pub open spec fn spec_has_name<T>(s: Seq<Record<T>>, n: Seq<char>) -> bool {
    exists|i: int| 0 <= i < s.len() && (#[trigger] s[i]).name@ == n
}

pub open spec fn spec_has_id<T>(s: Seq<Record<T>>, idv: Seq<char>) -> bool {
    exists|i: int| 0 <= i < s.len() && (#[trigger] s[i]).id@ == idv
}

pub open spec fn distinct_ids<T>(s: Seq<Record<T>>) -> bool {
    forall|i: int, j: int|
        0 <= i < j < s.len() ==> (#[trigger] s[i]).id@ != (#[trigger] s[j]).id@
}

pub open spec fn versions_wf<T>(s: Seq<Record<T>>) -> bool {
    forall|i: int|
        0 <= i < s.len() ==> (#[trigger] s[i]).version == count_with_name(s.take(i), s[i].name@)
            + 1
}

/// Well-formed history: every row's version is one more than the number of
/// rows with its name written before it (versions per name are therefore
/// exactly 1, 2, ..., k in order of insertion), and row ids never repeat.
pub open spec fn wf_rows<T>(s: Seq<Record<T>>) -> bool {
    versions_wf(s) && distinct_ids(s)
}

/// Row `i` holds the latest version of its name.
pub open spec fn is_latest<T>(s: Seq<Record<T>>, i: int) -> bool {
    0 <= i < s.len() && forall|j: int| i < j < s.len() ==> (#[trigger] s[j]).name@ != s[i].name@
}

/// The indices of the latest rows among the first `n`, ascending.
pub open spec fn latest_upto<T>(s: Seq<Record<T>>, n: int) -> Seq<int>
    decreases n,
{
    if n <= 0 {
        Seq::empty()
    } else if is_latest(s, n - 1) {
        latest_upto(s, n - 1).push(n - 1)
    } else {
        latest_upto(s, n - 1)
    }
}

/// The indices of the rows holding the latest version of their name,
/// ascending.
pub open spec fn latest_seq<T>(s: Seq<Record<T>>) -> Seq<int> {
    latest_upto(s, s.len() as int)
}

/// Every latest index is in bounds.
pub proof fn lemma_latest_upto_bounds<T>(s: Seq<Record<T>>, n: int)
    requires
        0 <= n <= s.len(),
    ensures
        forall|k: int|
            0 <= k < latest_upto(s, n).len() ==> 0 <= #[trigger] latest_upto(s, n)[k] < n,
    decreases n,
{
    if n > 0 {
        lemma_latest_upto_bounds(s, n - 1);
        let prev = latest_upto(s, n - 1);
        let cur = latest_upto(s, n);
        assert forall|k: int| 0 <= k < cur.len() implies 0 <= #[trigger] cur[k] < n by {
            if is_latest(s, n - 1) {
                if k < prev.len() {
                    assert(cur[k] == prev[k]);
                } else {
                    assert(cur[k] == n - 1);
                }
            } else {
                assert(cur[k] == prev[k]);
            }
        }
    }
}

/// The first row carrying id `idv`, if any.
pub open spec fn id_index<T>(s: Seq<Record<T>>, idv: Seq<char>) -> Option<int>
    decreases s.len(),
{
    if s.len() == 0 {
        None
    } else if s[0].id@ == idv {
        Some(0)
    } else {
        match id_index(s.subrange(1, s.len() as int), idv) {
            Some(i) => Some(i + 1),
            None => None,
        }
    }
}

/// The rows of `s` whose name is not `n`, in order.
pub open spec fn remove_name<T>(s: Seq<Record<T>>, n: Seq<char>) -> Seq<Record<T>>
    decreases s.len(),
{
    if s.len() == 0 {
        Seq::empty()
    } else if s.last().name@ == n {
        remove_name(s.drop_last(), n)
    } else {
        remove_name(s.drop_last(), n).push(s.last())
    }
}

// === Counting lemmas ===

pub proof fn lemma_count_le_len<T>(s: Seq<Record<T>>, n: Seq<char>)
    ensures
        count_with_name(s, n) <= s.len(),
    decreases s.len(),
{
    if s.len() > 0 {
        lemma_count_le_len(s.drop_last(), n);
    }
}

pub proof fn lemma_count_pos_iff_has<T>(s: Seq<Record<T>>, n: Seq<char>)
    ensures
        count_with_name(s, n) > 0 <==> spec_has_name(s, n),
    decreases s.len(),
{
    if s.len() > 0 {
        let prefix = s.drop_last();
        lemma_count_pos_iff_has(prefix, n);
        if s.last().name@ == n {
            assert(s[s.len() - 1].name@ == n);
        } else {
            if spec_has_name(s, n) {
                let i = choose|i: int| 0 <= i < s.len() && (#[trigger] s[i]).name@ == n;
                assert(i < s.len() - 1);
                assert(prefix[i].name@ == n);
            }
            if spec_has_name(prefix, n) {
                let i = choose|i: int| 0 <= i < prefix.len() && (#[trigger] prefix[i]).name@ == n;
                assert(s[i].name@ == n);
            }
        }
    }
}

pub proof fn lemma_count_take_step<T>(s: Seq<Record<T>>, n: Seq<char>, i: int)
    requires
        0 <= i < s.len(),
    ensures
        count_with_name(s.take(i + 1), n) == count_with_name(s.take(i), n) + if s[i].name@ == n {
            1nat
        } else {
            0nat
        },
{
    assert(s.take(i + 1).drop_last() =~= s.take(i));
    assert(s.take(i + 1).last() == s[i]);
}

pub proof fn lemma_count_monotone<T>(s: Seq<Record<T>>, n: Seq<char>, i: int, j: int)
    requires
        0 <= i <= j <= s.len(),
    ensures
        count_with_name(s.take(i), n) <= count_with_name(s.take(j), n),
    decreases j - i,
{
    if i < j {
        lemma_count_take_step(s, n, j - 1);
        lemma_count_monotone(s, n, i, j - 1);
    }
}

pub proof fn lemma_wf_take<T>(s: Seq<Record<T>>, k: int)
    requires
        wf_rows(s),
        0 <= k <= s.len(),
    ensures
        wf_rows(s.take(k)),
{
    assert forall|i: int| 0 <= i < k implies (#[trigger] s.take(k)[i]).version == count_with_name(
        s.take(k).take(i),
        s.take(k)[i].name@,
    ) + 1 by {
        assert(s.take(k).take(i) =~= s.take(i));
        assert(s.take(k)[i] == s[i]);
    }
    assert forall|i: int, j: int|
        0 <= i < j < k implies (#[trigger] s.take(k)[i]).id@ != (#[trigger] s.take(k)[j]).id@ by {
        assert(s.take(k)[i] == s[i] && s.take(k)[j] == s[j]);
    }
}

// === Monotonic versioning, as a law ===

/// Monotonic versioning: in a well-formed history the versions stored under a
/// name `n` are exactly 1, 2, ..., k where k is the number of writes to `n`,
/// and they appear in increasing order.
pub proof fn lemma_versions_contiguous<T>(s: Seq<Record<T>>, n: Seq<char>)
    requires
        wf_rows(s),
    ensures
        forall|i: int|
            0 <= i < s.len() && (#[trigger] s[i]).name@ == n ==> 1 <= s[i].version
                <= count_with_name(s, n),
        forall|i: int, j: int|
            0 <= i < j < s.len() && (#[trigger] s[i]).name@ == n && (#[trigger] s[j]).name@ == n
                ==> s[i].version < s[j].version,
    decreases s.len(),
{
    assert forall|i: int| 0 <= i < s.len() && (#[trigger] s[i]).name@ == n implies 1 <= s[i].version
        <= count_with_name(s, n) by {
        lemma_count_take_step(s, n, i);
        lemma_count_monotone(s, n, i + 1, s.len() as int);
        assert(s.take(s.len() as int) =~= s);
    }
    assert forall|i: int, j: int|
        0 <= i < j < s.len() && (#[trigger] s[i]).name@ == n && (#[trigger] s[j]).name@ == n
        implies s[i].version < s[j].version by {
        lemma_count_take_step(s, n, i);
        lemma_count_monotone(s, n, i + 1, j);
    }
}

/// Monotonic versioning, completeness: every version from 1 to the write
/// count of `n` is stored under some row of name `n`.
pub proof fn lemma_versions_cover<T>(s: Seq<Record<T>>, n: Seq<char>, v: int)
    requires
        wf_rows(s),
        1 <= v <= count_with_name(s, n),
    ensures
        exists|i: int| 0 <= i < s.len() && (#[trigger] s[i]).name@ == n && s[i].version == v,
    decreases s.len(),
{
    let prefix = s.drop_last();
    assert(prefix =~= s.take(s.len() - 1));
    lemma_wf_take(s, s.len() - 1);
    if s.last().name@ == n && v == count_with_name(s, n) {
        let i = s.len() - 1;
        assert(s[i].version == count_with_name(s.take(i), s[i].name@) + 1);
        assert(s.take(i) =~= prefix);
        assert(s[i].name@ == n && s[i].version == v);
    } else {
        assert(v <= count_with_name(prefix, n));
        lemma_versions_cover(prefix, n, v);
        let i = choose|i: int|
            0 <= i < prefix.len() && (#[trigger] prefix[i]).name@ == n && prefix[i].version == v;
        assert(s[i].name@ == n && s[i].version == v);
    }
}

/// Unique-name insertion: after a create of name `n` succeeds, every later
/// same-name create finds the name taken, and by `create`'s contract returns
/// `Conflict` and leaves the repository unchanged.  Of two same-name creates,
/// exactly one inserts a row.
pub proof fn lemma_unique_name_insertion<T>(rows: Seq<Record<T>>, rec: Record<T>)
    ensures
        spec_has_name(rows.push(rec), rec.name@),
{
    assert(rows.push(rec)[rows.len() as int].name@ == rec.name@);
}

// === Removal lemmas ===

proof fn lemma_remove_count<T>(s: Seq<Record<T>>, n: Seq<char>, m: Seq<char>)
    ensures
        count_with_name(remove_name(s, n), m) == if m == n {
            0nat
        } else {
            count_with_name(s, m)
        },
    decreases s.len(),
{
    if s.len() > 0 {
        lemma_remove_count(s.drop_last(), n, m);
        if s.last().name@ != n {
            assert(remove_name(s, n) == remove_name(s.drop_last(), n).push(s.last()));
            assert(remove_name(s, n).drop_last() =~= remove_name(s.drop_last(), n));
        }
    }
}

proof fn lemma_remove_membership<T>(s: Seq<Record<T>>, n: Seq<char>, k: int)
    requires
        0 <= k < remove_name(s, n).len(),
    ensures
        exists|i: int| 0 <= i < s.len() && #[trigger] s[i] == remove_name(s, n)[k],
    decreases s.len(),
{
    if s.len() > 0 {
        let prefix = s.drop_last();
        if s.last().name@ != n && k == remove_name(s, n).len() - 1 {
            assert(s[s.len() - 1] == remove_name(s, n)[k]);
        } else {
            lemma_remove_membership(prefix, n, k);
            let i = choose|i: int|
                0 <= i < prefix.len() && #[trigger] prefix[i] == remove_name(prefix, n)[k];
            assert(s[i] == remove_name(s, n)[k]);
        }
    }
}

proof fn lemma_remove_wf<T>(s: Seq<Record<T>>, n: Seq<char>)
    requires
        wf_rows(s),
    ensures
        wf_rows(remove_name(s, n)),
    decreases s.len(),
{
    if s.len() > 0 {
        let prefix = s.drop_last();
        assert(prefix =~= s.take(s.len() - 1));
        lemma_wf_take(s, s.len() - 1);
        lemma_remove_wf(prefix, n);
        if s.last().name@ != n {
            let out = remove_name(prefix, n).push(s.last());
            let k = remove_name(prefix, n).len() as int;
            assert forall|i: int| 0 <= i < out.len() implies (#[trigger] out[i]).version
                == count_with_name(out.take(i), out[i].name@) + 1 by {
                if i < k {
                    assert(out[i] == remove_name(prefix, n)[i]);
                    assert(out.take(i) =~= remove_name(prefix, n).take(i));
                } else {
                    assert(out[i] == s.last());
                    assert(out.take(i) =~= remove_name(prefix, n));
                    lemma_remove_count(prefix, n, s.last().name@);
                    assert(s.last().version == count_with_name(
                        s.take(s.len() - 1),
                        s.last().name@,
                    ) + 1);
                    assert(count_with_name(prefix, s.last().name@) == count_with_name(
                        s.take(s.len() - 1),
                        s.last().name@,
                    ));
                }
            }
            assert forall|a: int, b: int| 0 <= a < b < out.len() implies (#[trigger] out[a]).id@
                != (#[trigger] out[b]).id@ by {
                if b < k {
                    assert(out[a] == remove_name(prefix, n)[a]);
                    assert(out[b] == remove_name(prefix, n)[b]);
                } else {
                    assert(out[b] == s.last());
                    lemma_remove_membership(prefix, n, a);
                    let i = choose|i: int|
                        0 <= i < prefix.len() && #[trigger] prefix[i] == remove_name(prefix, n)[a];
                    assert(out[a] == prefix[i]);
                    assert(prefix[i] == s[i]);
                    assert(s[i].id@ != s[s.len() - 1].id@);
                }
            }
        }
    }
}

// === The repository ===

/// A versioned store of named rows.
pub struct Repository<T> {
    rows: Vec<Record<T>>,
}

impl<T> Repository<T> {
    /// The stored history, oldest row first.
    pub closed spec fn spec_rows(&self) -> Seq<Record<T>> {
        self.rows@
    }

    pub open spec fn wf(&self) -> bool {
        wf_rows(self.spec_rows())
    }

    /// An empty repository.
    pub fn new() -> (r: Self)
        ensures
            r.spec_rows() == Seq::<Record<T>>::empty(),
            r.wf(),
    {
        let r = Repository { rows: Vec::new() };
        proof {
            assert(r.spec_rows() =~= Seq::<Record<T>>::empty());
        }
        r
    }

    pub fn row_count(&self) -> (r: usize)
        ensures
            r == self.spec_rows().len(),
    {
        self.rows.len()
    }

    pub fn row_at(&self, i: usize) -> (r: &Record<T>)
        requires
            i < self.spec_rows().len(),
        ensures
            *r == self.spec_rows()[i as int],
    {
        &self.rows[i]
    }

    /// Whether any version of `name` is stored.
    pub fn contains_name(&self, name: &str) -> (r: bool)
        ensures
            r == spec_has_name(self.spec_rows(), name@),
    {
        let n = self.rows.len();
        let mut i: usize = 0;
        while i < n
            invariant
                i <= n,
                n == self.spec_rows().len(),
                forall|j: int| 0 <= j < i ==> (#[trigger] self.spec_rows()[j]).name@ != name@,
            decreases n - i,
        {
            if crate::text::str_eq(self.rows[i].name.as_str(), name) {
                return true;
            }
            i = i + 1;
        }
        false
    }

    /// Whether any row carries the row id `id`.
    pub fn contains_id(&self, id: &str) -> (r: bool)
        ensures
            r == spec_has_id(self.spec_rows(), id@),
    {
        let n = self.rows.len();
        let mut i: usize = 0;
        while i < n
            invariant
                i <= n,
                n == self.spec_rows().len(),
                forall|j: int| 0 <= j < i ==> (#[trigger] self.spec_rows()[j]).id@ != id@,
            decreases n - i,
        {
            if crate::text::str_eq(self.rows[i].id.as_str(), id) {
                return true;
            }
            i = i + 1;
        }
        false
    }

    fn count_name(&self, name: &str) -> (r: usize)
        ensures
            r == count_with_name(self.spec_rows(), name@),
    {
        let n = self.rows.len();
        let mut count: usize = 0;
        let mut i: usize = 0;
        while i < n
            invariant
                i <= n,
                n == self.spec_rows().len(),
                count == count_with_name(self.spec_rows().take(i as int), name@),
                count <= i,
            decreases n - i,
        {
            proof {
                lemma_count_take_step(self.spec_rows(), name@, i as int);
            }
            if crate::text::str_eq(self.rows[i].name.as_str(), name) {
                count = count + 1;
            }
            i = i + 1;
        }
        proof {
            assert(self.spec_rows().take(n as int) =~= self.spec_rows());
        }
        count
    }

    /// Inserts version 1 of a new name under a fresh row id; rejected with
    /// `Conflict` when any version of the name already exists, and with
    /// `Internal` when the offered row id is already taken.
    pub fn create(&mut self, id: String, name: String, data: T) -> (r: Result<(), ApiError>)
        requires
            old(self).wf(),
        ensures
            final(self).wf(),
            spec_has_name(old(self).spec_rows(), name@) ==> (r matches Err(e) && e is Conflict
                && final(self).spec_rows() == old(self).spec_rows()),
            !spec_has_name(old(self).spec_rows(), name@) && spec_has_id(
                old(self).spec_rows(),
                id@,
            ) ==> (r matches Err(e) && e is Internal && final(self).spec_rows() == old(
                self,
            ).spec_rows()),
            !spec_has_name(old(self).spec_rows(), name@) && !spec_has_id(
                old(self).spec_rows(),
                id@,
            ) ==> (r is Ok && final(self).spec_rows() == old(self).spec_rows().push(
                Record { id, name, version: 1u64, data },
            )),
    {
        if self.contains_name(name.as_str()) {
            return Err(ApiError::Conflict(String::from_str("name already exists")));
        }
        if self.contains_id(id.as_str()) {
            return Err(ApiError::Internal(String::from_str("row id already exists")));
        }
        proof {
            lemma_count_pos_iff_has(self.spec_rows(), name@);
        }
        let ghost old_rows = self.spec_rows();
        let ghost idv = id@;
        let rec = Record { id, name, version: 1u64, data };
        self.rows.push(rec);
        proof {
            let s = self.spec_rows();
            assert(s == old_rows.push(s.last()));
            assert forall|i: int| 0 <= i < s.len() implies (#[trigger] s[i]).version
                == count_with_name(s.take(i), s[i].name@) + 1 by {
                if i < old_rows.len() {
                    assert(s[i] == old_rows[i]);
                    assert(s.take(i) =~= old_rows.take(i));
                } else {
                    assert(s.take(i) =~= old_rows);
                }
            }
            assert forall|i: int, j: int| 0 <= i < j < s.len() implies (#[trigger] s[i]).id@ != (
            #[trigger] s[j]).id@ by {
                if j == s.len() - 1 {
                    assert(s[i] == old_rows[i]);
                    assert(s[j].id@ == idv);
                }
            }
        }
        Ok(())
    }

    /// The latest stored version of `name`, when any exists.
    pub fn get_by_name(&self, name: &str) -> (r: Option<&Record<T>>)
        ensures
            match r {
                Some(rec) => exists|i: int|
                    is_latest(self.spec_rows(), i) && (#[trigger] self.spec_rows()[i]).name@
                        == name@ && *rec == self.spec_rows()[i],
                None => !spec_has_name(self.spec_rows(), name@),
            },
    {
        let n = self.rows.len();
        let mut best: Option<usize> = None;
        let mut i: usize = 0;
        while i < n
            invariant
                i <= n,
                n == self.spec_rows().len(),
                match best {
                    Some(b) => {
                        &&& b < i
                        &&& self.spec_rows()[b as int].name@ == name@
                        &&& forall|j: int|
                            b < j < i ==> (#[trigger] self.spec_rows()[j]).name@ != name@
                    },
                    None => forall|j: int|
                        0 <= j < i ==> (#[trigger] self.spec_rows()[j]).name@ != name@,
                },
            decreases n - i,
        {
            if crate::text::str_eq(self.rows[i].name.as_str(), name) {
                best = Some(i);
            }
            i = i + 1;
        }
        match best {
            Some(b) => {
                proof {
                    assert(is_latest(self.spec_rows(), b as int));
                }
                Some(&self.rows[b])
            },
            None => None,
        }
    }

    /// The indices of the rows that hold the latest version of their name, in
    /// order: each returned index is latest, they ascend, and every latest
    /// index is returned.
    pub fn latest_indices(&self) -> (r: Vec<usize>)
        ensures
            forall|k: int|
                0 <= k < r@.len() ==> is_latest(self.spec_rows(), #[trigger] r@[k] as int),
            forall|k1: int, k2: int| 0 <= k1 < k2 < r@.len() ==> r@[k1] < r@[k2],
            forall|i: int| is_latest(self.spec_rows(), i) ==> exists|k: int|
                0 <= k < r@.len() && #[trigger] r@[k] as int == i,
            r@.len() == latest_seq(self.spec_rows()).len(),
            forall|k: int|
                0 <= k < r@.len() ==> #[trigger] r@[k] as int == latest_seq(self.spec_rows())[k],
    {
        let n = self.rows.len();
        let mut out: Vec<usize> = Vec::new();
        let mut i: usize = 0;
        while i < n
            invariant
                i <= n,
                n == self.spec_rows().len(),
                forall|k: int|
                    0 <= k < out@.len() ==> is_latest(self.spec_rows(), #[trigger] out@[k] as int)
                        && out@[k] < i,
                forall|k1: int, k2: int| 0 <= k1 < k2 < out@.len() ==> out@[k1] < out@[k2],
                forall|j: int|
                    0 <= j < i && is_latest(self.spec_rows(), j) ==> exists|k: int|
                        0 <= k < out@.len() && #[trigger] out@[k] as int == j,
                out@.len() == latest_upto(self.spec_rows(), i as int).len(),
                forall|k: int|
                    0 <= k < out@.len() ==> #[trigger] out@[k] as int == latest_upto(
                        self.spec_rows(),
                        i as int,
                    )[k],
            decreases n - i,
        {
            let mut later_match = false;
            let mut j: usize = i + 1;
            while j < n
                invariant
                    i < j <= n || (later_match && j <= n),
                    i < n,
                    n == self.spec_rows().len(),
                    later_match ==> exists|l: int|
                        i < l < n && (#[trigger] self.spec_rows()[l]).name@
                            == self.spec_rows()[i as int].name@,
                    !later_match ==> forall|l: int|
                        i < l < j ==> (#[trigger] self.spec_rows()[l]).name@
                            != self.spec_rows()[i as int].name@,
                decreases n - j,
            {
                if crate::text::str_eq(
                    self.rows[j].name.as_str(),
                    self.rows[i].name.as_str(),
                ) {
                    later_match = true;
                }
                j = j + 1;
            }
            if !later_match {
                assert(is_latest(self.spec_rows(), i as int));
                let ghost old_out = out@;
                out.push(i);
                proof {
                    assert forall|j: int|
                        0 <= j < i + 1 && is_latest(self.spec_rows(), j) implies exists|k: int|
                        0 <= k < out@.len() && #[trigger] out@[k] as int == j by {
                        if j == i as int {
                            assert(out@[out@.len() - 1] as int == j);
                        } else {
                            let k = choose|k: int|
                                0 <= k < old_out.len() && #[trigger] old_out[k] as int == j;
                            assert(out@[k] as int == j);
                        }
                    }
                }
            } else {
                assert(!is_latest(self.spec_rows(), i as int));
            }
            i = i + 1;
        }
        out
    }

    /// Writes the next version of the resource addressed by row id `id`: a
    /// new row under the same name, one version later, stored under the
    /// fresh row id `new_id`.  `NotFound` when no row carries `id`;
    /// `Internal` when `new_id` is already taken.
    pub fn update(&mut self, id: &str, new_id: String, data: T) -> (r: Result<u64, ApiError>)
        requires
            old(self).wf(),
            old(self).spec_rows().len() < 0xffff_ffff_ffff_ffff,
        ensures
            final(self).wf(),
            match id_index(old(self).spec_rows(), id@) {
                Some(i) => {
                    if spec_has_id(old(self).spec_rows(), new_id@) {
                        r matches Err(e) && e is Internal && final(self).spec_rows() == old(
                            self,
                        ).spec_rows()
                    } else {
                        &&& r matches Ok(v)
                        &&& v == count_with_name(
                            old(self).spec_rows(),
                            old(self).spec_rows()[i].name@,
                        ) + 1
                        &&& final(self).spec_rows().len() == old(self).spec_rows().len() + 1
                        &&& final(self).spec_rows().take(old(self).spec_rows().len() as int)
                            == old(self).spec_rows()
                        &&& final(self).spec_rows().last().id@ == new_id@
                        &&& final(self).spec_rows().last().name@ == old(self).spec_rows()[i].name@
                        &&& final(self).spec_rows().last().version == v
                        &&& final(self).spec_rows().last().data == data
                    }
                },
                None => {
                    &&& r matches Err(e)
                    &&& e is NotFound
                    &&& final(self).spec_rows() == old(self).spec_rows()
                },
            },
    {
        let found = self.find_id_index(id);
        match found {
            None => {
                proof {
                    lemma_id_index_none(self.spec_rows(), id@);
                }
                Err(ApiError::NotFound(String::from_str("row id not found")))
            },
            Some(idx) => {
                proof {
                    lemma_id_index_at(self.spec_rows(), id@, idx as int);
                }
                if self.contains_id(new_id.as_str()) {
                    return Err(ApiError::Internal(String::from_str("row id already exists")));
                }
                let name = self.rows[idx].name.clone();
                let count = self.count_name(name.as_str());
                proof {
                    lemma_count_le_len(self.spec_rows(), name@);
                }
                let version: u64 = (count as u64) + 1;
                let ghost old_rows = self.spec_rows();
                let ghost idv = new_id@;
                let rec = Record { id: new_id, name, version, data };
                self.rows.push(rec);
                proof {
                    let s = self.spec_rows();
                    assert(s.take(old_rows.len() as int) =~= old_rows);
                    assert forall|k: int| 0 <= k < s.len() implies (#[trigger] s[k]).version
                        == count_with_name(s.take(k), s[k].name@) + 1 by {
                        if k < old_rows.len() {
                            assert(s[k] == old_rows[k]);
                            assert(s.take(k) =~= old_rows.take(k));
                        } else {
                            assert(s.take(k) =~= old_rows);
                        }
                    }
                    assert forall|a: int, b: int| 0 <= a < b < s.len() implies (
                    #[trigger] s[a]).id@ != (#[trigger] s[b]).id@ by {
                        if b == s.len() - 1 {
                            assert(s[a] == old_rows[a]);
                            assert(s[b].id@ == idv);
                        }
                    }
                }
                Ok(version)
            },
        }
    }

    /// Removes every version of the resource addressed by row id `id`.
    /// `NotFound` when no row carries `id`.
    pub fn delete(&mut self, id: &str) -> (r: Result<(), ApiError>)
        requires
            old(self).wf(),
        ensures
            final(self).wf(),
            match id_index(old(self).spec_rows(), id@) {
                Some(i) => {
                    &&& r is Ok
                    &&& final(self).spec_rows() == remove_name(
                        old(self).spec_rows(),
                        old(self).spec_rows()[i].name@,
                    )
                    &&& !spec_has_name(final(self).spec_rows(), old(self).spec_rows()[i].name@)
                },
                None => {
                    &&& r matches Err(e)
                    &&& e is NotFound
                    &&& final(self).spec_rows() == old(self).spec_rows()
                },
            },
    {
        let found = self.find_id_index(id);
        match found {
            None => {
                proof {
                    lemma_id_index_none(self.spec_rows(), id@);
                }
                Err(ApiError::NotFound(String::from_str("row id not found")))
            },
            Some(idx) => {
                proof {
                    lemma_id_index_at(self.spec_rows(), id@, idx as int);
                }
                let name = self.rows[idx].name.clone();
                let ghost old_rows = self.spec_rows();
                let ghost n = name@;
                loop
                    invariant
                        name@ == n,
                        remove_name(self.spec_rows(), n) == remove_name(old_rows, n),
                    ensures
                        self.spec_rows() == remove_name(old_rows, n),
                        !spec_has_name(self.spec_rows(), n),
                    decreases self.spec_rows().len(),
                {
                    match self.find_name_index(name.as_str()) {
                        Some(i) => {
                            proof {
                                lemma_remove_name_remove(self.spec_rows(), n, i as int);
                            }
                            self.rows.remove(i);
                        },
                        None => {
                            proof {
                                lemma_remove_name_noop(self.spec_rows(), n);
                            }
                            break;
                        },
                    }
                }
                proof {
                    lemma_remove_wf(old_rows, n);
                }
                Ok(())
            },
        }
    }

    fn find_id_index(&self, id: &str) -> (r: Option<usize>)
        ensures
            match r {
                Some(i) => {
                    &&& i < self.spec_rows().len()
                    &&& self.spec_rows()[i as int].id@ == id@
                    &&& forall|j: int|
                        0 <= j < i ==> (#[trigger] self.spec_rows()[j]).id@ != id@
                },
                None => forall|j: int|
                    0 <= j < self.spec_rows().len() ==> (#[trigger] self.spec_rows()[j]).id@
                        != id@,
            },
    {
        let n = self.rows.len();
        let mut i: usize = 0;
        while i < n
            invariant
                i <= n,
                n == self.spec_rows().len(),
                forall|j: int| 0 <= j < i ==> (#[trigger] self.spec_rows()[j]).id@ != id@,
            decreases n - i,
        {
            if crate::text::str_eq(self.rows[i].id.as_str(), id) {
                return Some(i);
            }
            i = i + 1;
        }
        None
    }

    fn find_name_index(&self, name: &str) -> (r: Option<usize>)
        ensures
            match r {
                Some(i) => i < self.spec_rows().len() && self.spec_rows()[i as int].name@ == name@,
                None => !spec_has_name(self.spec_rows(), name@),
            },
    {
        let n = self.rows.len();
        let mut i: usize = 0;
        while i < n
            invariant
                i <= n,
                n == self.spec_rows().len(),
                forall|j: int| 0 <= j < i ==> (#[trigger] self.spec_rows()[j]).name@ != name@,
            decreases n - i,
        {
            if crate::text::str_eq(self.rows[i].name.as_str(), name) {
                return Some(i);
            }
            i = i + 1;
        }
        None
    }
}

proof fn lemma_remove_name_remove<T>(s: Seq<Record<T>>, n: Seq<char>, i: int)
    requires
        0 <= i < s.len(),
        s[i].name@ == n,
    ensures
        remove_name(s.remove(i), n) == remove_name(s, n),
    decreases s.len(),
{
    if i == s.len() - 1 {
        assert(s.remove(i) =~= s.drop_last());
    } else {
        let s2 = s.remove(i);
        assert(s2.drop_last() =~= s.drop_last().remove(i));
        assert(s2.last() == s.last());
        assert(s.drop_last()[i] == s[i]);
        lemma_remove_name_remove(s.drop_last(), n, i);
    }
}

pub proof fn lemma_remove_name_noop<T>(s: Seq<Record<T>>, n: Seq<char>)
    requires
        forall|j: int| 0 <= j < s.len() ==> (#[trigger] s[j]).name@ != n,
    ensures
        remove_name(s, n) == s,
    decreases s.len(),
{
    if s.len() > 0 {
        assert(forall|j: int|
            0 <= j < s.drop_last().len() ==> (#[trigger] s.drop_last()[j]).name@ != n);
        lemma_remove_name_noop(s.drop_last(), n);
        assert(remove_name(s, n) =~= s);
    } else {
        assert(remove_name(s, n) =~= s);
    }
}

pub proof fn lemma_id_index_none<T>(s: Seq<Record<T>>, idv: Seq<char>)
    requires
        forall|j: int| 0 <= j < s.len() ==> (#[trigger] s[j]).id@ != idv,
    ensures
        id_index(s, idv) is None,
    decreases s.len(),
{
    if s.len() > 0 {
        let rest = s.subrange(1, s.len() as int);
        assert(forall|j: int| 0 <= j < rest.len() ==> #[trigger] rest[j] == s[j + 1]);
        lemma_id_index_none(rest, idv);
    }
}

pub proof fn lemma_id_index_at<T>(s: Seq<Record<T>>, idv: Seq<char>, i: int)
    requires
        0 <= i < s.len(),
        forall|j: int| 0 <= j < i ==> (#[trigger] s[j]).id@ != idv,
        s[i].id@ == idv,
    ensures
        id_index(s, idv) == Some(i),
    decreases i,
{
    if i > 0 {
        let rest = s.subrange(1, s.len() as int);
        assert(forall|j: int| 0 <= j < rest.len() ==> #[trigger] rest[j] == s[j + 1]);
        lemma_id_index_at(rest, idv, i - 1);
    }
}

} // verus!
