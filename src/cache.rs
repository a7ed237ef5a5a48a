//! The record cache: a snapshot of the active records, replaced whole on
//! reload, with ranked lookup (exact patterns before wildcards, then snapshot
//! order).

use vstd::prelude::*;
use crate::record::{Record, is_exact_pattern, record_active, record_matches};
use crate::text::text_eq;

verus! {

/// Index of the first element of `s` that satisfies `p`.
pub open spec fn first_index(s: Seq<Record>, p: spec_fn(Record) -> bool) -> Option<int>
    decreases s.len(),
{
    if s.len() == 0 {
        None
    } else if p(s[0]) {
        Some(0)
    } else {
        match first_index(s.drop_first(), p) {
            Some(i) => Some(i + 1),
            None => None,
        }
    }
}

/// A record is a candidate for a query when its type is the one asked for and
/// the matcher accepts it.
pub open spec fn is_candidate(r: Record, q: Seq<char>, t: Seq<char>) -> bool {
    r.record_type@ == t && record_matches(r, q)
}

pub open spec fn is_exact_candidate(r: Record, q: Seq<char>, t: Seq<char>) -> bool {
    is_candidate(r, q, t) && is_exact_pattern(r.domain_pattern@)
}

/// The record a lookup returns: the first exact-pattern candidate if there is
/// one, else the first candidate, else none.
pub open spec fn selected_record(s: Seq<Record>, q: Seq<char>, t: Seq<char>) -> Option<Record> {
    match first_index(s, |r: Record| is_exact_candidate(r, q, t)) {
        Some(i) => Some(s[i]),
        None => match first_index(s, |r: Record| is_candidate(r, q, t)) {
            Some(i) => Some(s[i]),
            None => None,
        },
    }
}

/// `first_index` finds the earliest element that satisfies the predicate.
pub proof fn lemma_first_index(s: Seq<Record>, p: spec_fn(Record) -> bool)
    ensures
        match first_index(s, p) {
            Some(i) => 0 <= i < s.len() && p(s[i]) && forall|j: int| 0 <= j < i ==> !p(#[trigger] s[j]),
            None => forall|j: int| 0 <= j < s.len() ==> !p(#[trigger] s[j]),
        },
    decreases s.len(),
{
    if s.len() > 0 && !p(s[0]) {
        lemma_first_index(s.drop_first(), p);
        assert forall|j: int| 0 < j < s.len() implies #[trigger] s[j] == s.drop_first()[j - 1] by {}
    }
}

/// The earliest element that satisfies the predicate is what `first_index` gives.
pub proof fn lemma_first_index_is(s: Seq<Record>, p: spec_fn(Record) -> bool, i: int)
    requires
        0 <= i < s.len(),
        p(s[i]),
        forall|j: int| 0 <= j < i ==> !p(#[trigger] s[j]),
    ensures
        first_index(s, p) == Some(i),
{
    lemma_first_index(s, p);
    match first_index(s, p) {
        Some(k) => {
            if k < i {
                assert(!p(s[k]));
            }
            if k > i {
                assert(!p(s[i]));
            }
        },
        None => {
            assert(!p(s[i]));
        },
    }
}

/// The in-memory mirror of the store's active records.
pub struct RecordCache {
    records: Vec<Record>,
}

impl View for RecordCache {
    type V = Seq<Record>;

    closed spec fn view(&self) -> Seq<Record> {
        self.records@
    }
}

impl RecordCache {
    /// A cache whose first snapshot is what the initial fetch from the store
    /// returned; a failed fetch is handed back.
    pub fn new<E>(fetched: Result<Vec<Record>, E>) -> (r: Result<RecordCache, E>)
        ensures
            match fetched {
                Ok(v) => r matches Ok(c) && c@ == v@,
                Err(e) => r == Err::<RecordCache, E>(e),
            },
    {
        match fetched {
            Ok(records) => Ok(RecordCache { records }),
            Err(e) => Err(e),
        }
    }

    /// A cache with an empty snapshot.
    pub fn empty() -> (r: RecordCache)
        ensures
            r@ == Seq::<Record>::empty(),
    {
        RecordCache { records: Vec::new() }
    }

    /// Replaces the snapshot with a fresh fetch from the store. On a failed
    /// fetch the previous snapshot is kept as it was and the error returned.
    pub fn reload<E>(&mut self, fetched: Result<Vec<Record>, E>) -> (r: Result<(), E>)
        ensures
            match fetched {
                Ok(v) => r is Ok && final(self)@ == v@,
                Err(e) => r == Err::<(), E>(e) && final(self)@ == old(self)@,
            },
    {
        match fetched {
            Ok(records) => {
                self.records = records;
                Ok(())
            },
            Err(e) => Err(e),
        }
    }

    /// The number of records in the snapshot.
    pub fn count(&self) -> (r: usize)
        ensures
            r == self@.len(),
    {
        self.records.len()
    }

    /// Looks a query up in one scan of the snapshot: the first exact-pattern
    /// candidate is returned at once; otherwise the first wildcard candidate
    /// met; otherwise nothing.
    pub fn find_matching_record(&self, query_name: &str, record_type: &str) -> (r: Option<Record>)
        ensures
            r == selected_record(self@, query_name@, record_type@),
    {
        let ghost q = query_name@;
        let ghost t = record_type@;
        let ghost s = self@;
        let ghost exact = |r: Record| is_exact_candidate(r, q, t);
        let ghost cand = |r: Record| is_candidate(r, q, t);
        let n = self.records.len();
        let mut wildcard: Option<usize> = None;
        let mut i: usize = 0;
        while i < n
            invariant
                s == self@,
                q == query_name@,
                t == record_type@,
                exact == (|r: Record| is_exact_candidate(r, q, t)),
                cand == (|r: Record| is_candidate(r, q, t)),
                n == s.len(),
                i <= n,
                forall|j: int| 0 <= j < i ==> !exact(#[trigger] s[j]),
                wildcard is None ==> forall|j: int| 0 <= j < i ==> !cand(#[trigger] s[j]),
                wildcard matches Some(w) ==> w < i && cand(s[w as int]) && forall|j: int|
                    0 <= j < w ==> !cand(#[trigger] s[j]),
            decreases n - i,
        {
            let record = &self.records[i];
            proof {
                assert(*record == s[i as int]);
                assert(exact(s[i as int]) == is_exact_candidate(s[i as int], q, t));
                assert(cand(s[i as int]) == is_candidate(s[i as int], q, t));
            }
            if text_eq(record.record_type.as_str(), record_type) && record.matches(query_name) {
                if record.is_exact_match() {
                    proof {
                        lemma_first_index_is(s, exact, i as int);
                    }
                    return Some(record.clone());
                }
                if wildcard.is_none() {
                    wildcard = Some(i);
                }
            }
            i = i + 1;
        }
        proof {
            lemma_first_index(s, exact);
        }
        match wildcard {
            Some(w) => {
                proof {
                    lemma_first_index_is(s, cand, w as int);
                }
                Some(self.records[w].clone())
            },
            None => {
                proof {
                    lemma_first_index(s, cand);
                }
                None
            },
        }
    }
}

/// Exact over wildcard: when a query name is accepted both by an exact-pattern
/// record and by a wildcard-pattern record of the requested type, the lookup
/// returns an exact-pattern record, whichever of the two came first.
pub proof fn lemma_exact_over_wildcard(
    s: Seq<Record>,
    q: Seq<char>,
    t: Seq<char>,
    exact: int,
    wild: int,
)
    requires
        0 <= exact < s.len(),
        0 <= wild < s.len(),
        is_candidate(s[exact], q, t),
        is_exact_pattern(s[exact].domain_pattern@),
        is_candidate(s[wild], q, t),
        !is_exact_pattern(s[wild].domain_pattern@),
    ensures
        selected_record(s, q, t) matches Some(r) && is_candidate(r, q, t) && is_exact_pattern(
            r.domain_pattern@,
        ),
{
    let p = |r: Record| is_exact_candidate(r, q, t);
    lemma_first_index(s, p);
    assert(p(s[exact]));
}

/// Inactive exclusion: a lookup never returns a record that is not active.
pub proof fn lemma_inactive_excluded(s: Seq<Record>, q: Seq<char>, t: Seq<char>)
    ensures
        selected_record(s, q, t) matches Some(r) ==> record_active(r),
{
    lemma_first_index(s, |r: Record| is_exact_candidate(r, q, t));
    lemma_first_index(s, |r: Record| is_candidate(r, q, t));
}

} // verus!
