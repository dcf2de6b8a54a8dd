//! Log-target filters of the form `<key>=<value>`.
use vstd::prelude::*;
use vstd::string::StrSliceExecFns;

verus! {

/// Why a log-target filter was refused.
#[derive(Debug, Clone, Copy, PartialEq, Eq, Structural)]
pub enum FilterError {
    /// The filter does not hold exactly one `=`.
    InvalidFilter,
    /// The part before `=` is neither `node_id` nor `subnet_id`.
    InvalidKey,
}

/// `i` is the position of the only `=` in `s`.
pub open spec fn is_sole_separator(s: Seq<char>, i: int) -> bool {
    &&& 0 <= i < s.len()
    &&& s[i] == '='
    &&& forall|j: int| 0 <= j < s.len() && j != i ==> s[j] != '='
}

/// `s` holds exactly one `=`.
pub open spec fn has_sole_separator(s: Seq<char>) -> bool {
    exists|i: int| is_sole_separator(s, i)
}

/// The keys that a filter may name.
pub open spec fn is_filter_key(k: Seq<char>) -> bool {
    k == "node_id"@ || k == "subnet_id"@
}

/// `s` is a well-formed filter: one `=`, and an accepted key before it.
pub open spec fn is_valid_filter(s: Seq<char>) -> bool {
    exists|i: int| is_sole_separator(s, i) && is_filter_key(s.subrange(0, i))
}

/// Whether the first `n` characters of `s` are exactly `key`.
fn prefix_is(s: &str, n: usize, key: &str) -> (r: bool)
    requires
        n <= s@.len(),
    ensures
        r == (s@.subrange(0, n as int) == key@),
{
    let klen = key.unicode_len();
    if klen != n {
        proof {
            assert(s@.subrange(0, n as int).len() != key@.len());
        }
        return false;
    }
    let mut i: usize = 0;
    while i < n
        invariant
            i <= n,
            n <= s@.len(),
            klen == n,
            key@.len() == n,
            forall|j: int| 0 <= j < i ==> s@[j] == key@[j],
        decreases n - i,
    {
        if s.get_char(i) != key.get_char(i) {
            proof {
                assert(s@.subrange(0, n as int)[i as int] != key@[i as int]);
            }
            return false;
        }
        i = i + 1;
    }
    assert(s@.subrange(0, n as int) =~= key@);
    true
}

/// Checks that a log-target filter has the form `node_id=<value>` or
/// `subnet_id=<value>`.
pub fn check_logs_filter_format(log_filter: &str) -> (r: Result<(), FilterError>)
    ensures
        r is Ok <==> is_valid_filter(log_filter@),
        r == Err::<(), FilterError>(FilterError::InvalidFilter) <==> !has_sole_separator(
            log_filter@,
        ),
        r == Err::<(), FilterError>(FilterError::InvalidKey) <==> (has_sole_separator(log_filter@)
            && !is_valid_filter(log_filter@)),
{
    let s = log_filter;
    let len = s.unicode_len();
    let mut count: usize = 0;
    let mut pos: usize = 0;
    let mut i: usize = 0;
    while i < len
        invariant
            len == s@.len(),
            i <= len,
            count <= i,
            count == 0 ==> forall|j: int| 0 <= j < i ==> s@[j] != '=',
            count >= 1 ==> pos < i && s@[pos as int] == '=',
            count == 1 ==> forall|j: int| 0 <= j < i && j != pos ==> s@[j] != '=',
            count >= 2 ==> exists|j: int| 0 <= j < i && j != pos && s@[j] == '=',
        decreases len - i,
    {
        if s.get_char(i) == '=' {
            if count == 0 {
                pos = i;
            }
            count = count + 1;
        }
        i = i + 1;
    }
    if count != 1 {
        proof {
            if count == 0 {
                assert forall|k: int| !is_sole_separator(s@, k) by {
                    if 0 <= k < s@.len() {
                        assert(s@[k] != '=');
                    }
                }
            } else {
                let j = choose|j: int| 0 <= j < len && j != pos && s@[j] == '=';
                assert forall|k: int| !is_sole_separator(s@, k) by {
                    if is_sole_separator(s@, k) {
                        if k == pos {
                            assert(s@[j] != '=');
                        } else {
                            assert(s@[pos as int] != '=');
                        }
                    }
                }
            }
        }
        return Err(FilterError::InvalidFilter);
    }
    assert(is_sole_separator(s@, pos as int));
    assert forall|k: int| is_sole_separator(s@, k) implies k == pos by {
        if k != pos {
            assert(s@[pos as int] != '=');
        }
    }
    proof {
        reveal_strlit("node_id");
        reveal_strlit("subnet_id");
    }
    if prefix_is(s, pos, "node_id") || prefix_is(s, pos, "subnet_id") {
        Ok(())
    } else {
        Err(FilterError::InvalidKey)
    }
}

} // verus!
