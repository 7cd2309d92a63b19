//! `key=value` pairs as given on a command line: the key is everything before
//! the first `=`, the value is everything between the first `=` and the
//! second one (or the end of the input).  An input without any `=` has no
//! value and is rejected.

use vstd::prelude::*;
use vstd::string::StrSliceExecFns;

verus! {

/// Whether `s` holds no `=` in positions `from` (inclusive) to `to`
/// (exclusive).
pub open spec fn eq_free(s: Seq<char>, from: int, to: int) -> bool {
    forall|i: int| from <= i < to ==> s[i] != '='
}

/// The error for an input that holds no `=` and so carries no value.
#[derive(Debug, Clone, Copy, PartialEq, Eq, Structural)]
pub enum KvError {
    MissingSeparator,
}

/// One parsed `key=value` pair.
#[derive(Debug, Clone, PartialEq, Eq)]
pub struct KvPair {
    pub k: String,
    pub v: String,
}

/// Index of the first `=` at or after `from`, if any.
fn find_eq(s: &str, from: usize) -> (r: Option<usize>)
    requires
        from <= s@.len(),
    ensures
        match r {
            Some(i) => from <= i < s@.len() && s@[i as int] == '=' && eq_free(
                s@,
                from as int,
                i as int,
            ),
            None => eq_free(s@, from as int, s@.len() as int),
        },
{
    let n = s.unicode_len();
    let mut i = from;
    while i < n
        invariant
            from <= i <= n,
            n == s@.len(),
            eq_free(s@, from as int, i as int),
        decreases n - i,
    {
        if s.get_char(i) == '=' {
            return Some(i);
        }
        i = i + 1;
    }
    None
}

impl KvPair {
    /// Parses `s` into a pair.  `Ok` exactly when `s` holds an `=`; then the
    /// key is the (possibly empty) prefix before the first `=` and the value
    /// runs from there to the second `=` or to the end.
    pub fn from_str(s: &str) -> (r: Result<KvPair, KvError>)
        ensures
            r is Ok <==> !eq_free(s@, 0, s@.len() as int),
            r matches Ok(kv) ==> ({
                let i = kv.k@.len() as int;
                &&& i < s@.len()
                &&& s@[i] == '='
                &&& kv.k@ == s@.take(i)
                &&& eq_free(s@, 0, i)
                &&& ({
                    let j = i + 1 + kv.v@.len();
                    &&& j <= s@.len()
                    &&& kv.v@ == s@.subrange(i + 1, j)
                    &&& eq_free(s@, i + 1, j)
                    &&& (j < s@.len() ==> s@[j] == '=')
                })
            }),
            r matches Err(e) ==> e == KvError::MissingSeparator,
    {
        match find_eq(s, 0) {
            None => Err(KvError::MissingSeparator),
            Some(i) => {
                let n = s.unicode_len();
                let k = s.substring_char(0, i);
                let v = match find_eq(s, i + 1) {
                    Some(j) => s.substring_char(i + 1, j),
                    None => s.substring_char(i + 1, n),
                };
                proof {
                    assert(s@.subrange(0, i as int) =~= s@.take(i as int));
                }
                Ok(KvPair { k: k.to_owned(), v: v.to_owned() })
            },
        }
    }
}

/// Parses one `key=value` argument.
pub fn parse_kv_pair(s: &str) -> (r: Result<KvPair, KvError>)
    ensures
        r is Ok <==> !eq_free(s@, 0, s@.len() as int),
        r matches Ok(kv) ==> ({
            let i = kv.k@.len() as int;
            &&& i < s@.len()
            &&& s@[i] == '='
            &&& kv.k@ == s@.take(i)
            &&& eq_free(s@, 0, i)
            &&& ({
                let j = i + 1 + kv.v@.len();
                &&& j <= s@.len()
                &&& kv.v@ == s@.subrange(i + 1, j)
                &&& eq_free(s@, i + 1, j)
                &&& (j < s@.len() ==> s@[j] == '=')
            })
        }),
        r matches Err(e) ==> e == KvError::MissingSeparator,
{
    KvPair::from_str(s)
}

} // verus!
