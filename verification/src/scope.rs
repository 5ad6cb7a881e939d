//! Which paths are audited.

use vstd::prelude::*;
use vstd::string::*;

verus! {

/// The directory whose subtree is audited.
pub open spec fn watched_root() -> Seq<char> {
    "/tmp"@
}

/// Where, below the watched root, the audit trail itself is kept.
pub open spec fn audit_subdir() -> Seq<char> {
    "/intercepts"@
}

/// `prefix` occurs in `s` starting at position `at`.
pub open spec fn occurs_at(s: Seq<char>, at: int, prefix: Seq<char>) -> bool {
    &&& 0 <= at
    &&& at + prefix.len() <= s.len()
    &&& s.subrange(at, at + prefix.len()) == prefix
}

/// The directory that holds the trail: the audit subdirectory below the
/// watched root.
pub open spec fn audit_dir_spec() -> Seq<char> {
    watched_root() + audit_subdir()
}

/// `path` names `dir` itself or something below it: it is `dir`, or it
/// begins with `dir` and a slash.
pub open spec fn under(path: Seq<char>, dir: Seq<char>) -> bool {
    path == dir || (dir + "/"@).is_prefix_of(path)
}

/// A path is in scope when it lies under the watched root and not under
/// the directory that holds the trail.
pub open spec fn in_scope_spec(path: Seq<char>) -> bool {
    under(path, watched_root()) && !under(path, audit_dir_spec())
}

/// Tests whether `prefix` occurs in `s` at character position `at`.
pub fn starts_with_at(s: &str, at: usize, prefix: &str) -> (r: bool)
    ensures
        r == occurs_at(s@, at as int, prefix@),
{
    let s_len: usize = s.unicode_len();
    let p_len: usize = prefix.unicode_len();
    if at > s_len || p_len > s_len - at {
        return false;
    }
    let mut i: usize = 0;
    while i < p_len
        invariant
            i <= p_len,
            s_len == s@.len(),
            p_len == prefix@.len(),
            at + p_len <= s_len,
            forall|j: int| 0 <= j < i ==> s@[at + j] == prefix@[j],
        decreases p_len - i,
    {
        if s.get_char(at + i) != prefix.get_char(i) {
            assert(s@.subrange(at as int, at + p_len)[i as int] == s@[at + i]);
            return false;
        }
        i = i + 1;
    }
    assert(s@.subrange(at as int, at + p_len) =~= prefix@);
    true
}

/// Tests whether `path` names `dir` or something below it.
pub fn is_under(path: &str, dir: &str) -> (r: bool)
    ensures
        r == under(path@, dir@),
{
    let dir_len: usize = dir.unicode_len();
    proof {
        reveal_strlit("/");
        let n = dir@.len() as int;
        let with_slash = dir@ + "/"@;
        if under(path@, dir@) {
            lemma_under_has_prefix(path@, dir@);
            assert(path@.subrange(0, n) =~= dir@);
            if path@ != dir@ {
                assert(path@[n] == with_slash[n]);
                assert(path@.subrange(n, n + 1) =~= "/"@);
            }
        }
        if occurs_at(path@, 0, dir@) {
            if path@.len() == n {
                assert(path@ =~= path@.subrange(0, n));
            }
            if occurs_at(path@, n, "/"@) {
                assert(path@[n] == path@.subrange(n, n + 1)[0]);
                assert forall|i: int| 0 <= i < n implies path@[i] == dir@[i] by {
                    assert(path@.subrange(0, n)[i] == path@[i]);
                }
                assert(with_slash =~= path@.subrange(0, with_slash.len() as int));
            }
        }
    }
    if !starts_with_at(path, 0, dir) {
        return false;
    }
    path.unicode_len() == dir_len || starts_with_at(path, dir_len, "/")
}

/// Decides whether a call on `path` is audited. The path is taken as the
/// caller wrote it: nothing is resolved or normalised.
pub fn in_scope(path: &str) -> (r: bool)
    ensures
        r == in_scope_spec(path@),
{
    proof {
        reveal_strlit("/tmp");
        reveal_strlit("/intercepts");
        reveal_strlit("/tmp/intercepts");
        assert("/tmp/intercepts"@ =~= audit_dir_spec());
    }
    is_under(path, "/tmp") && !is_under(path, "/tmp/intercepts")
}

/// Whatever lies under a directory begins with that directory's name.
pub proof fn lemma_under_has_prefix(path: Seq<char>, dir: Seq<char>)
    requires
        under(path, dir),
    ensures
        dir.is_prefix_of(path),
        path.len() > dir.len() ==> path[dir.len() as int] == '/',
{
    reveal_strlit("/");
    let with_slash = dir + "/"@;
    if path == dir {
        assert(dir =~= path.subrange(0, dir.len() as int));
    } else {
        assert(with_slash =~= path.subrange(0, with_slash.len() as int));
        assert(path[dir.len() as int] == with_slash[dir.len() as int]);
        assert forall|i: int| 0 <= i < dir.len() implies dir[i] == path[i] by {
            assert(with_slash[i] == path.subrange(0, with_slash.len() as int)[i]);
        }
        assert(dir =~= path.subrange(0, dir.len() as int));
    }
}

/// A directory's name followed by nothing, or by a slash and anything, lies
/// under that directory.
pub proof fn lemma_extension_is_under(dir: Seq<char>, rest: Seq<char>)
    requires
        rest.len() == 0 || rest[0] == '/',
    ensures
        under(dir + rest, dir),
{
    reveal_strlit("/");
    let path = dir + rest;
    let with_slash = dir + "/"@;
    if rest.len() == 0 {
        assert(path =~= dir);
    } else {
        assert(with_slash =~= path.subrange(0, with_slash.len() as int));
    }
}

/// Below a common directory, one path lies under another exactly when the
/// rests do.
pub proof fn lemma_under_same_parent(parent: Seq<char>, rest: Seq<char>, dir: Seq<char>)
    ensures
        under(parent + rest, parent + dir) <==> under(rest, dir),
{
    let n = parent.len() as int;
    let long = parent + dir + "/"@;
    let short = dir + "/"@;
    assert((parent + rest).subrange(n, n + rest.len()) =~= rest);
    assert((parent + dir).subrange(n, n + dir.len()) =~= dir);
    if parent + rest == parent + dir {
        assert(rest.len() == dir.len());
        assert(rest == dir);
    }
    if long.is_prefix_of(parent + rest) {
        assert forall|i: int| 0 <= i < short.len() implies short[i] == rest[i] by {
            assert(long[n + i] == (parent + rest).subrange(0, long.len() as int)[n + i]);
        }
        assert(short =~= rest.subrange(0, short.len() as int));
    }
    if short.is_prefix_of(rest) {
        assert forall|i: int| 0 <= i < long.len() implies long[i] == (parent + rest)[i] by {
            if i >= n {
                assert(short[i - n] == rest.subrange(0, short.len() as int)[i - n]);
            }
        }
        assert(long =~= (parent + rest).subrange(0, long.len() as int));
    }
}

/// A path made of the watched root and a rest that is empty or begins with
/// a slash is in scope, unless the rest names the audit subdirectory or
/// something below it.
pub proof fn lemma_under_root_in_scope(rest: Seq<char>)
    requires
        rest.len() == 0 || rest[0] == '/',
        !under(rest, audit_subdir()),
    ensures
        in_scope_spec(watched_root() + rest),
{
    lemma_extension_is_under(watched_root(), rest);
    lemma_under_same_parent(watched_root(), rest, audit_subdir());
}

/// A path that does not begin with the watched root is out of scope.
pub proof fn lemma_outside_root_out_of_scope(path: Seq<char>)
    requires
        !watched_root().is_prefix_of(path),
    ensures
        !in_scope_spec(path),
{
    if under(path, watched_root()) {
        lemma_under_has_prefix(path, watched_root());
    }
}

/// A path that goes on after the watched root's name with anything but a
/// slash lies beside the root, and is out of scope.
pub proof fn lemma_beside_root_out_of_scope(path: Seq<char>)
    requires
        path.len() > watched_root().len(),
        path[watched_root().len() as int] != '/',
    ensures
        !in_scope_spec(path),
{
    if under(path, watched_root()) {
        lemma_under_has_prefix(path, watched_root());
    }
}

/// The trail's directory and everything below it are out of scope, so
/// keeping the trail never adds to it.
pub proof fn lemma_audit_dir_out_of_scope(rest: Seq<char>)
    requires
        rest.len() == 0 || rest[0] == '/',
    ensures
        !in_scope_spec(audit_dir_spec() + rest),
{
    lemma_extension_is_under(audit_dir_spec(), rest);
}

} // verus!
