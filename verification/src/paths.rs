use vstd::prelude::*;
use vstd::string::StrSliceExecFns;
use vstd::string::StringExecFns;

verus! {

/// A path under a directory: the directory, a separator, then the name.
pub open spec fn join_spec(dir: Seq<char>, name: Seq<char>) -> Seq<char> {
    dir + "/"@ + name
}

/// Builds `dir/name`.
pub fn join_str(dir: &String, name: &str) -> (r: String)
    ensures
        r@ == join_spec(dir@, name@),
{
    let mut r = dir.clone();
    r.append("/");
    r.append(name);
    r
}

/// True exactly when the recorded name ends with the path separator.
pub fn ends_with_sep(s: &String) -> (r: bool)
    ensures
        r == (s@.len() > 0 && s@.last() == '/'),
{
    let n = s.as_str().unicode_len();
    if n == 0 {
        false
    } else {
        s.as_str().get_char(n - 1) == '/'
    }
}

/// Everything before the last separator: the enclosing directory of a path.
pub open spec fn parent_spec(s: Seq<char>) -> Seq<char>
    decreases s.len(),
{
    if s.len() == 0 {
        s
    } else if s.last() == '/' {
        s.drop_last()
    } else {
        parent_spec(s.drop_last())
    }
}

pub proof fn lemma_parent_spec_at(s: Seq<char>, j: int)
    requires
        0 <= j < s.len(),
        s[j] == '/',
        forall|k: int| j < k < s.len() ==> s[k] != '/',
    ensures
        parent_spec(s) == s.subrange(0, j),
    decreases s.len(),
{
    if j == s.len() - 1 {
        assert(s.last() == '/');
        assert(s.drop_last() =~= s.subrange(0, j));
    } else {
        let t = s.drop_last();
        assert(s.last() != '/');
        assert(t[j] == '/');
        assert(forall|k: int| j < k < t.len() ==> t[k] != '/');
        lemma_parent_spec_at(t, j);
        assert(t.subrange(0, j) =~= s.subrange(0, j));
    }
}

/// The enclosing directory of a path, or `None` for a path without separator.
pub fn parent_of(s: &String) -> (r: Option<String>)
    ensures
        r is Some <==> s@.contains('/'),
        r matches Some(p) ==> p@ == parent_spec(s@),
{
    let n = s.as_str().unicode_len();
    let mut i = n;
    while i > 0
        invariant
            i <= n,
            n == s@.len(),
            forall|k: int| i <= k < s@.len() ==> s@[k] != '/',
        decreases i,
    {
        if s.as_str().get_char(i - 1) == '/' {
            let p = s.as_str().substring_char(0, i - 1);
            proof {
                lemma_parent_spec_at(s@, i - 1);
                assert(s@[i - 1] == '/');
            }
            return Some(String::from_str(p));
        }
        i = i - 1;
    }
    proof {
        if s@.contains('/') {
            let k = choose|k: int| 0 <= k < s@.len() && s@[k] == '/';
            assert(false);
        }
    }
    None
}

/// The smaller of two progress counts.
pub fn min_u64(a: u64, b: u64) -> (r: u64)
    ensures
        r == if a < b {
            a
        } else {
            b
        },
{
    if a < b {
        a
    } else {
        b
    }
}

} // verus!
