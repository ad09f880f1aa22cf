//! Resolution of a compound `<circuit_id>::<service_id>` address.
//!
//! A service is addressed by a single string holding two segments separated
//! by the two-character delimiter `::`. Resolution splits the string at the
//! first delimiter: the text before it is the circuit id, the text between it
//! and the next delimiter (or the end of the string) is the service id. Any
//! further segments are ignored. Both segments must be non-empty; the
//! segments are used verbatim, with no trimming or case folding.

use vstd::prelude::*;
use vstd::string::StrSliceExecFns;
use vstd::string::StringExecFns;
use crate::error::BackendClientError;
use crate::error::is_bad_request_with;

verus! {

/// Holds when the two-character delimiter `::` starts at position `i` of `s`.
pub open spec fn is_delim_at(s: Seq<char>, i: int) -> bool {
    &&& 0 <= i
    &&& i + 2 <= s.len()
    &&& s[i] == ':'
    &&& s[i + 1] == ':'
}

/// Holds when `s` contains the delimiter nowhere.
pub open spec fn delim_free(s: Seq<char>) -> bool {
    forall|j: int| !is_delim_at(s, j)
}

/// The position of the first delimiter of `s` at or after `i`, or `s.len()`
/// if there is none.
pub open spec fn first_delim_from(s: Seq<char>, i: int) -> int
    decreases s.len() - i
        when 0 <= i <= s.len()
{
    if i + 2 > s.len() {
        s.len() as int
    } else if is_delim_at(s, i) {
        i
    } else {
        first_delim_from(s, i + 1)
    }
}

/// Where the circuit segment of `s` ends: the position of the first
/// delimiter, or `s.len()` if `s` has no delimiter.
pub open spec fn circuit_end(s: Seq<char>) -> int {
    first_delim_from(s, 0)
}

/// Holds when `s` contains the delimiter at all.
pub open spec fn has_delim(s: Seq<char>) -> bool {
    circuit_end(s) < s.len()
}

/// The circuit segment of `s`: everything before the first delimiter.
pub open spec fn circuit_of(s: Seq<char>) -> Seq<char> {
    s.subrange(0, circuit_end(s))
}

/// Where the service segment of `s` ends: the position of the next delimiter
/// after the first one, or `s.len()`. Meaningful only when `has_delim(s)`.
pub open spec fn service_end(s: Seq<char>) -> int {
    first_delim_from(s, circuit_end(s) + 2)
}

/// The service segment of `s`: everything between the first delimiter and
/// the next one (or the end of the string). Meaningful only when
/// `has_delim(s)`.
pub open spec fn service_of(s: Seq<char>) -> Seq<char> {
    s.subrange(circuit_end(s) + 2, service_end(s))
}

/// Resolution fails for want of a first segment: the string is empty or
/// starts with the delimiter.
pub open spec fn resolve_err_empty(s: Seq<char>) -> bool {
    circuit_end(s) == 0
}

/// Resolution fails for want of a second segment: there is a first segment,
/// but no delimiter follows it, or nothing stands between the first delimiter
/// and the next one (or the end of the string).
pub open spec fn resolve_err_unqualified(s: Seq<char>) -> bool {
    &&& !resolve_err_empty(s)
    &&& (!has_delim(s) || service_of(s).len() == 0)
}

/// Resolution succeeds: both segments are non-empty.
pub open spec fn resolve_ok(s: Seq<char>) -> bool {
    &&& !resolve_err_empty(s)
    &&& !resolve_err_unqualified(s)
}

/// A resolved two-part service address.
pub struct SplinterService {
    pub circuit_id: String,
    pub service_id: String,
}

impl SplinterService {
    /// Both segments of a resolved address are non-empty.
    pub open spec fn wf(self) -> bool {
        self.circuit_id@.len() > 0 && self.service_id@.len() > 0
    }

    /// Resolves a compound service address.
    ///
    /// Splits `s` at the first `::`: the text before it becomes `circuit_id`,
    /// the text up to the next `::` (or the end) becomes `service_id`;
    /// further segments are ignored. Rejects a missing first segment and a
    /// missing second segment with `BadRequestError`.
    pub fn from_str(s: &str) -> (r: Result<SplinterService, BackendClientError>)
        ensures
            r is Ok <==> resolve_ok(s@),
            resolve_ok(s@) ==> (r matches Ok(v)
                && v.circuit_id@ == circuit_of(s@)
                && v.service_id@ == service_of(s@)
                && v.wf()),
            resolve_err_empty(s@) ==> (r matches Err(e)
                && is_bad_request_with(e, "Empty service_id parameter provided"@)),
            resolve_err_unqualified(s@) ==> (r matches Err(e)
                && is_bad_request_with(
                e,
                "Must provide a fully-qualified service_id: <circuit_id>::<service_id>"@,
            )),
    {
        let n = s.unicode_len();
        let d1 = find_delim_from(s, 0);
        if d1 == 0 {
            return Err(
                BackendClientError::BadRequestError(
                    String::from_str("Empty service_id parameter provided"),
                ),
            );
        }
        if d1 == n {
            return Err(
                BackendClientError::BadRequestError(
                    String::from_str(
                        "Must provide a fully-qualified service_id: <circuit_id>::<service_id>",
                    ),
                ),
            );
        }
        proof {
            lemma_first_delim_props(s@, 0);
            lemma_first_delim_props(s@, d1 + 2);
        }
        let d2 = find_delim_from(s, d1 + 2);
        if d2 == d1 + 2 {
            return Err(
                BackendClientError::BadRequestError(
                    String::from_str(
                        "Must provide a fully-qualified service_id: <circuit_id>::<service_id>",
                    ),
                ),
            );
        }
        let circuit = s.substring_char(0, d1);
        let service = s.substring_char(d1 + 2, d2);
        Ok(
            SplinterService {
                circuit_id: String::from_str(circuit),
                service_id: String::from_str(service),
            },
        )
    }
}

/// The first delimiter of `s` at or after `start`, as an executable search.
fn find_delim_from(s: &str, start: usize) -> (r: usize)
    requires
        start <= s@.len(),
    ensures
        r == first_delim_from(s@, start as int),
{
    let n = s.unicode_len();
    if n < 2 || start > n - 2 {
        proof {
            lemma_first_delim_props(s@, start as int);
        }
        return n;
    }
    let mut i = start;
    while i <= n - 2
        invariant
            start <= i <= n - 1,
            n == s@.len(),
            2 <= n,
            first_delim_from(s@, start as int) == first_delim_from(s@, i as int),
        decreases n - i,
    {
        let c0 = s.get_char(i);
        let c1 = s.get_char(i + 1);
        if c0 == ':' && c1 == ':' {
            return i;
        }
        i = i + 1;
    }
    n
}

/// What the first-delimiter search returns: a position between `i` and the
/// end, with the delimiter there if it is not the end, and no delimiter
/// anywhere before it.
pub proof fn lemma_first_delim_props(s: Seq<char>, i: int)
    requires
        0 <= i <= s.len(),
    ensures
        i <= first_delim_from(s, i) <= s.len(),
        first_delim_from(s, i) < s.len() ==> is_delim_at(s, first_delim_from(s, i)),
        forall|j: int| i <= j < first_delim_from(s, i) ==> !is_delim_at(s, j),
        first_delim_from(s, i) == s.len() ==> forall|j: int| i <= j ==> !is_delim_at(s, j),
    decreases s.len() - i,
{
    if i + 2 > s.len() {
    } else if is_delim_at(s, i) {
    } else {
        lemma_first_delim_props(s, i + 1);
    }
}

/// The first-delimiter search finds `k` when the delimiter stands at `k` and
/// nowhere earlier (at or after `i`).
pub proof fn lemma_first_delim_at(s: Seq<char>, i: int, k: int)
    requires
        0 <= i <= k,
        is_delim_at(s, k),
        forall|j: int| i <= j < k ==> !is_delim_at(s, j),
    ensures
        first_delim_from(s, i) == k,
    decreases k - i,
{
    if i < k {
        lemma_first_delim_at(s, i + 1, k);
    }
}

/// Law: resolving `"<a>::<b>"` yields circuit id `a` and service id `b`,
/// whenever `a` and `b` are non-empty, neither contains the delimiter, and
/// `a` does not end in `':'` (an `a` ending in `':'` would shift the first
/// delimiter one position left).
pub proof fn lemma_resolve_round_trip(a: Seq<char>, b: Seq<char>)
    requires
        a.len() > 0,
        b.len() > 0,
        delim_free(a),
        delim_free(b),
        a.last() != ':',
    ensures
        resolve_ok(a + "::"@ + b),
        circuit_of(a + "::"@ + b) == a,
        service_of(a + "::"@ + b) == b,
{
    reveal_strlit("::");
    let t = a + "::"@ + b;
    assert(t.len() == a.len() + 2 + b.len());
    assert(is_delim_at(t, a.len() as int));
    assert forall|j: int| 0 <= j < a.len() implies !is_delim_at(t, j) by {
        if j < a.len() - 1 {
            assert(t[j] == a[j]);
            assert(t[j + 1] == a[j + 1]);
            assert(!is_delim_at(a, j));
        } else {
            assert(t[j] == a[a.len() - 1]);
        }
    }
    lemma_first_delim_at(t, 0, a.len() as int);
    assert(circuit_end(t) == a.len());
    assert(circuit_of(t) =~= a);
    assert forall|j: int| a.len() + 2 <= j < t.len() implies !is_delim_at(t, j) by {
        if j + 2 <= t.len() {
            assert(t[j] == b[j - a.len() - 2]);
            assert(t[j + 1] == b[j + 1 - a.len() - 2]);
            assert(!is_delim_at(b, j - a.len() - 2));
        }
    }
    lemma_first_delim_props(t, a.len() + 2int);
    if first_delim_from(t, a.len() + 2int) < t.len() {
        assert(is_delim_at(t, first_delim_from(t, a.len() + 2int)));
        assert(false);
    }
    assert(service_end(t) == t.len());
    assert(service_of(t) =~= b);
}

} // verus!
