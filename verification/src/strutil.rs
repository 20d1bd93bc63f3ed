//! Small verified helpers on strings: equality, prefix tests, and the
//! mount-prefix stripping the routers apply to a request path.

use vstd::prelude::*;
use vstd::string::StrSliceExecFns;
use vstd::string::StringExecFns;

verus! {

/// Character-for-character equality of two string slices.
pub fn str_eq(a: &str, b: &str) -> (r: bool)
    ensures
        r == (a@ == b@),
{
    let alen = a.unicode_len();
    let blen = b.unicode_len();
    if alen != blen {
        proof {
            assert(a@ != b@);
        }
        return false;
    }
    for i in 0..alen
        invariant
            alen == a@.len(),
            alen == b@.len(),
            forall|j: int| 0 <= j < i ==> a@[j] == b@[j],
    {
        if a.get_char(i) != b.get_char(i) {
            return false;
        }
    }
    proof {
        assert(a@ =~= b@);
    }
    true
}

/// Whether `p` is a prefix of `s`, character for character.
pub fn str_starts_with(s: &str, p: &str) -> (r: bool)
    ensures
        r == p@.is_prefix_of(s@),
{
    let slen = s.unicode_len();
    let plen = p.unicode_len();
    if plen > slen {
        proof {
            assert(!p@.is_prefix_of(s@));
        }
        return false;
    }
    for i in 0..plen
        invariant
            plen == p@.len(),
            slen == s@.len(),
            plen <= slen,
            forall|j: int| 0 <= j < i ==> s@[j] == p@[j],
    {
        if s.get_char(i) != p.get_char(i) {
            proof {
                assert(s@.subrange(0, p@.len() as int)[i as int] == s@[i as int]);
            }
            return false;
        }
    }
    proof {
        assert(s@.subrange(0, p@.len() as int) =~= p@);
    }
    true
}

/// `s` with every leading `/` removed.
pub open spec fn strip_leading_slashes(s: Seq<char>) -> Seq<char>
    decreases s.len(),
{
    if s.len() > 0 && s[0] == '/' {
        strip_leading_slashes(s.drop_first())
    } else {
        s
    }
}

/// The path a router matches its own routes against: the full request path
/// with the router's mount prefix removed, renormalised to start with one `/`.
/// A root router (empty mount prefix) matches the full path unchanged.
pub open spec fn local_path_spec(full: Seq<char>, mounted: Seq<char>) -> Seq<char> {
    if mounted.len() == 0 {
        full
    } else {
        seq!['/'] + strip_leading_slashes(full.skip(mounted.len() as int))
    }
}

proof fn lemma_strip_leading_slashes_step(s: Seq<char>, k: int)
    requires
        0 <= k <= s.len(),
        forall|j: int| 0 <= j < k ==> s[j] == '/',
    ensures
        strip_leading_slashes(s) == strip_leading_slashes(s.skip(k)),
    decreases k,
{
    if k > 0 {
        assert(s.skip(0) =~= s);
        assert(s.drop_first() =~= s.skip(1));
        lemma_strip_leading_slashes_step(s.drop_first(), k - 1);
        assert(s.drop_first().skip(k - 1) =~= s.skip(k));
    } else {
        assert(s.skip(0) =~= s);
    }
}

/// Computes `local_path_spec` for a non-empty mount prefix no longer than the
/// path itself.
pub fn strip_mount_prefix(full: &str, mounted: &str) -> (r: String)
    requires
        mounted@.len() > 0,
        mounted@.len() <= full@.len(),
    ensures
        r@ == local_path_spec(full@, mounted@),
{
    let full_len = full.unicode_len();
    let start = mounted.unicode_len();
    let mut i = start;
    while i < full_len && full.get_char(i) == '/'
        invariant
            start <= i <= full_len,
            full_len == full@.len(),
            start == mounted@.len(),
            forall|j: int| start <= j < i ==> full@[j] == '/',
        decreases full_len - i,
    {
        i = i + 1;
    }
    let rest = full.substring_char(i, full_len);
    let mut out = String::from_str("/");
    out.append(rest);
    proof {
        reveal_strlit("/");
        let tail = full@.skip(start as int);
        lemma_strip_leading_slashes_step(tail, i - start);
        assert(tail.skip(i - start) =~= full@.skip(i as int));
        assert(full@.subrange(i as int, full_len as int) =~= full@.skip(i as int));
        if i < full_len {
            assert(full@.skip(i as int)[0] == full@[i as int]);
            assert(strip_leading_slashes(full@.skip(i as int)) == full@.skip(i as int));
        } else {
            assert(full@.skip(i as int) =~= Seq::<char>::empty());
            assert(strip_leading_slashes(full@.skip(i as int)) == full@.skip(i as int));
        }
        assert(out@ =~= local_path_spec(full@, mounted@));
    }
    out
}

} // verus!
