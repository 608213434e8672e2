//! Character-level helpers for building and checking path strings.
use vstd::prelude::*;

verus! {

/// The path separator used throughout.
pub open spec fn sep() -> Seq<char> {
    seq!['/']
}

/// `base/name` as a character sequence.
pub open spec fn joined(base: Seq<char>, name: Seq<char>) -> Seq<char> {
    base + sep() + name
}

/// `tail` appended to the directory `base`: a separator is put between them
/// unless `base` is empty or already ends in one.
pub open spec fn pushed(base: Seq<char>, tail: Seq<char>) -> Seq<char> {
    if base.len() == 0 || base.last() == '/' {
        base + tail
    } else {
        joined(base, tail)
    }
}

/// Two dots stand at positions `i` and `i + 1` of `s`.
pub open spec fn dots_at(s: Seq<char>, i: int) -> bool {
    0 <= i && i + 1 < s.len() && s[i] == '.' && s[i + 1] == '.'
}

/// `s` holds the parent-directory sequence `..` somewhere.
pub open spec fn has_parent_step(s: Seq<char>) -> bool {
    exists|i: int| dots_at(s, i)
}

/// A name that can be appended to a directory without leaving it: not empty,
/// not starting at the filesystem root, and free of `..`.
pub open spec fn is_contained_name(s: Seq<char>) -> bool {
    s.len() > 0 && s[0] != '/' && !has_parent_step(s)
}

/// Builds `base/name`.
pub fn join(base: &str, name: &str) -> (r: String)
    ensures
        r@ == joined(base@, name@),
{
    proof {
        reveal_strlit("/");
        assert("/"@ =~= sep());
    }
    let mut r = String::from_str(base);
    r.append("/");
    r.append(name);
    r
}

/// Appends the relative path `tail` to the directory `base`.
pub fn push(base: &str, tail: &str) -> (r: String)
    ensures
        r@ == pushed(base@, tail@),
{
    let n = base.unicode_len();
    if n == 0 || base.get_char(n - 1) == '/' {
        let mut r = String::from_str(base);
        r.append(tail);
        r
    } else {
        join(base, tail)
    }
}

/// Whether two strings hold the same characters.
pub fn same(a: &str, b: &str) -> (r: bool)
    ensures
        r == (a@ == b@),
{
    let n = a.unicode_len();
    if b.unicode_len() != n {
        return false;
    }
    let mut i: usize = 0;
    while i < n
        invariant
            n == a@.len(),
            n == b@.len(),
            i <= n,
            forall|j: int| 0 <= j < i ==> a@[j] == b@[j],
        decreases n - i,
    {
        if a.get_char(i) != b.get_char(i) {
            return false;
        }
        i += 1;
    }
    assert(a@ =~= b@);
    true
}

/// Decides [`is_contained_name`].
pub fn contained_name(s: &str) -> (r: bool)
    ensures
        r == is_contained_name(s@),
{
    let n = s.unicode_len();
    if n == 0 || s.get_char(0) == '/' {
        return false;
    }
    let mut i: usize = 0;
    while i + 1 < n
        invariant
            n == s@.len(),
            i < n,
            forall|j: int| 0 <= j < i ==> !dots_at(s@, j),
        decreases n - i,
    {
        if s.get_char(i) == '.' && s.get_char(i + 1) == '.' {
            assert(dots_at(s@, i as int));
            return false;
        }
        i += 1;
    }
    assert forall|j: int| !dots_at(s@, j) by {
        if 0 <= j < i {
        }
    }
    true
}

/// A joined path starts with its base, and the rest is the separator and
/// the name.
pub proof fn lemma_joined_extends(base: Seq<char>, name: Seq<char>)
    ensures
        base.is_prefix_of(joined(base, name)),
        joined(base, name).len() == base.len() + 1 + name.len(),
        joined(base, name)[base.len() as int] == '/',
        joined(base, name).subrange(base.len() as int + 1, joined(base, name).len() as int) == name,
{
    let j = joined(base, name);
    assert(j.subrange(0, base.len() as int) =~= base);
    assert(j.subrange(base.len() as int + 1, j.len() as int) =~= name);
}

/// Joining onto one base is injective in the name.
pub proof fn lemma_joined_injective(base: Seq<char>, a: Seq<char>, b: Seq<char>)
    requires
        joined(base, a) == joined(base, b),
    ensures
        a == b,
{
    lemma_joined_extends(base, a);
    lemma_joined_extends(base, b);
}

} // verus!
