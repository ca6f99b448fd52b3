use vstd::prelude::*;
use vstd::string::StrSliceExecFns;
use vstd::string::StringExecFns;

verus! {

/// Path separator characters recognized in archive and manifest entry names.
pub open spec fn is_path_sep(c: char) -> bool {
    c == '/' || c == '\\'
}

/// A parent-directory traversal segment `..` starts at position `i` of `s`:
/// two dots bounded by the string ends or by separators.
pub open spec fn traversal_at(s: Seq<char>, i: int) -> bool {
    &&& 0 <= i
    &&& i + 1 < s.len()
    &&& s[i] == '.'
    &&& s[i + 1] == '.'
    &&& (i == 0 || is_path_sep(s[i - 1]))
    &&& (i + 2 == s.len() || is_path_sep(s[i + 2]))
}

/// A relative path that stays within the directory it is joined to: it is
/// non-empty, not absolute, and contains no `..` segment.
pub open spec fn safe_rel_path(s: Seq<char>) -> bool {
    &&& s.len() > 0
    &&& !is_path_sep(s[0])
    &&& forall|i: int| !traversal_at(s, i)
}

fn is_sep_char(c: char) -> (r: bool)
    ensures
        r == is_path_sep(c),
{
    c == '/' || c == '\\'
}

/// Decides whether an untrusted entry name may be joined to an output root.
pub fn is_safe_rel_path(name: &str) -> (r: bool)
    ensures
        r == safe_rel_path(name@),
{
    let n = name.unicode_len();
    if n == 0 {
        return false;
    }
    if is_sep_char(name.get_char(0)) {
        return false;
    }
    for i in 0..n
        invariant
            n == name@.len(),
            n > 0,
            !is_path_sep(name@[0]),
            forall|j: int| 0 <= j < i ==> !traversal_at(name@, j),
    {
        if name.get_char(i) == '.' && i + 1 < n && name.get_char(i + 1) == '.' {
            let left_ok = i == 0 || is_sep_char(name.get_char(i - 1));
            let right_ok = i + 2 == n || is_sep_char(name.get_char(i + 2));
            if left_ok && right_ok {
                assert(traversal_at(name@, i as int));
                return false;
            }
        }
    }
    assert forall|i: int| !traversal_at(name@, i) by {
        if 0 <= i < n {
            assert(!traversal_at(name@, i));
        }
    }
    true
}

/// The output path for a relative entry name under a root directory.
pub open spec fn joined_path(root: Seq<char>, rel: Seq<char>) -> Seq<char> {
    root + seq!['/'] + rel
}

/// Joins an output root and a relative entry name with a `/` separator.
pub fn join_path(root: &str, rel: &str) -> (r: String)
    ensures
        r@ == joined_path(root@, rel@),
{
    let mut s = String::from_str(root);
    s.append("/");
    s.append(rel);
    proof {
        reveal_strlit("/");
        assert(s@ =~= joined_path(root@, rel@));
    }
    s
}

} // verus!
