//! The path jail: maps user-visible paths to real paths under a server root
//! and back. Paths are compared as text; nothing is canonicalised.

use vstd::prelude::*;
use vstd::string::*;

verus! {

/// The user path with one leading separator removed, if it has one.
pub open spec fn strip_leading_separator(p: Seq<char>) -> Seq<char> {
    if p.len() > 0 && p[0] == '/' {
        p.drop_first()
    } else {
        p
    }
}

pub open spec fn ends_with_separator(p: Seq<char>) -> bool {
    p.len() > 0 && p.last() == '/'
}

pub open spec fn is_prefix_of(pre: Seq<char>, s: Seq<char>) -> bool {
    pre.len() <= s.len() && s.subrange(0, pre.len() as int) == pre
}

/// `rest` appended to `root` with exactly one separator between them; an
/// empty `rest` leaves `root` as it is.
pub open spec fn join_spec(root: Seq<char>, rest: Seq<char>) -> Seq<char> {
    if rest.len() == 0 {
        root
    } else if ends_with_separator(root) {
        root + rest
    } else {
        root + seq!['/'] + rest
    }
}

pub open spec fn real_path_spec(root: Seq<char>, path: Seq<char>) -> Seq<char> {
    join_spec(root, strip_leading_separator(path))
}

/// The user-visible form of `full`, which always starts with a separator,
/// when `full` lies under `root`.
pub open spec fn user_path_spec(root: Seq<char>, full: Seq<char>) -> Option<Seq<char>> {
    if full == root {
        Some(seq!['/'])
    } else if ends_with_separator(root) && is_prefix_of(root, full) {
        Some(seq!['/'] + full.subrange(root.len() as int, full.len() as int))
    } else if is_prefix_of(root, full) && full.len() > root.len() && full[root.len() as int]
        == '/' {
        Some(full.subrange(root.len() as int, full.len() as int))
    } else {
        None
    }
}

/// Index of the last separator among the first `i` characters of `p`, or -1.
pub open spec fn last_separator_before(p: Seq<char>, i: int) -> int
    decreases i,
{
    if i <= 0 {
        -1
    } else if p[i - 1] == '/' {
        i - 1
    } else {
        last_separator_before(p, i - 1)
    }
}

pub open spec fn last_separator(p: Seq<char>) -> int {
    last_separator_before(p, p.len() as int)
}

/// The text before the last separator (`/` for a path directly under `/`).
pub open spec fn parent_spec(p: Seq<char>) -> Option<Seq<char>> {
    let i = last_separator(p);
    if i < 0 || p.len() <= 1 {
        None
    } else if i == 0 {
        Some(seq!['/'])
    } else {
        Some(p.subrange(0, i))
    }
}

/// The text after the last separator, when it names something.
pub open spec fn file_name_spec(p: Seq<char>) -> Option<Seq<char>> {
    let tail = p.subrange(last_separator(p) + 1, p.len() as int);
    if tail.len() == 0 || tail == seq!['.', '.'] {
        None
    } else {
        Some(tail)
    }
}

proof fn lemma_last_separator_bounds(p: Seq<char>, i: int)
    requires
        0 <= i <= p.len(),
    ensures
        -1 <= last_separator_before(p, i) < i,
        last_separator_before(p, i) >= 0 ==> p[last_separator_before(p, i)] == '/',
    decreases i,
{
    if i > 0 && p[i - 1] != '/' {
        lemma_last_separator_bounds(p, i - 1);
    }
}

/// Resolving a user path and reading the result back gives that user path
/// with exactly one leading separator, whatever the root.
pub proof fn lemma_real_user_round_trip(root: Seq<char>, path: Seq<char>)
    ensures
        user_path_spec(root, real_path_spec(root, path)) == Some(
            seq!['/'] + strip_leading_separator(path),
        ),
{
    let rest = strip_leading_separator(path);
    let full = real_path_spec(root, path);
    if rest.len() == 0 {
        assert(seq!['/'] + rest =~= seq!['/']);
    } else if ends_with_separator(root) {
        assert(full.subrange(0, root.len() as int) =~= root);
        assert(full.subrange(root.len() as int, full.len() as int) =~= rest);
        assert(full != root) by {
            assert(full.len() != root.len());
        }
    } else {
        assert(full.subrange(0, root.len() as int) =~= root);
        assert(full.subrange(root.len() as int, full.len() as int) =~= seq!['/'] + rest);
        assert(full != root) by {
            assert(full.len() != root.len());
        }
    }
}

/// `name` placed under `base` the way a path buffer pushes it: an absolute
/// name replaces the base.
pub open spec fn push_spec(base: Seq<char>, name: Seq<char>) -> Seq<char> {
    if name.len() > 0 && name[0] == '/' {
        name
    } else {
        join_spec(base, name)
    }
}

/// `name` pushed onto `base`.
pub fn push_path(base: &str, name: &str) -> (r: String)
    ensures
        r@ == push_spec(base@, name@),
{
    let n = name.unicode_len();
    if n > 0 && name.get_char(0) == '/' {
        return String::from_str(name);
    }
    let r = real_path(base, name);
    assert(strip_leading_separator(name@) == name@);
    r
}

fn starts_with_chars(s: &str, pre: &str) -> (r: bool)
    ensures
        r == is_prefix_of(pre@, s@),
{
    let n = pre.unicode_len();
    let m = s.unicode_len();
    if n > m {
        return false;
    }
    let mut i: usize = 0;
    while i < n
        invariant
            n == pre@.len(),
            m == s@.len(),
            n <= m,
            i <= n,
            forall|j: int| 0 <= j < i ==> s@[j] == pre@[j],
        decreases n - i,
    {
        if s.get_char(i) != pre.get_char(i) {
            assert(s@.subrange(0, n as int)[i as int] != pre@[i as int]);
            return false;
        }
        i = i + 1;
    }
    assert(s@.subrange(0, n as int) =~= pre@);
    true
}

fn same_chars(a: &str, b: &str) -> (r: bool)
    ensures
        r == (a@ == b@),
{
    if a.unicode_len() != b.unicode_len() {
        return false;
    }
    let r = starts_with_chars(a, b);
    proof {
        if r {
            assert(a@ =~= a@.subrange(0, b@.len() as int));
        } else {
            assert(a@ == b@ ==> a@.subrange(0, b@.len() as int) =~= b@);
        }
    }
    r
}

fn ends_with_separator_exec(p: &str) -> (r: bool)
    ensures
        r == ends_with_separator(p@),
{
    let n = p.unicode_len();
    n > 0 && p.get_char(n - 1) == '/'
}

/// Composes the server root and a user-visible path. A leading separator of
/// the user path is dropped, so the result always stays textually under
/// `root_path`.
pub fn real_path(root_path: &str, path: &str) -> (r: String)
    ensures
        r@ == real_path_spec(root_path@, path@),
{
    let len = path.unicode_len();
    let rest: &str = if len > 0 && path.get_char(0) == '/' {
        path.substring_char(1, len)
    } else {
        path
    };
    assert(rest@ =~= strip_leading_separator(path@));
    let mut out = String::from_str(root_path);
    if rest.unicode_len() == 0 {
        return out;
    }
    if !ends_with_separator_exec(root_path) {
        let sep = "/";
        proof {
            reveal_strlit("/");
        }
        out.append(sep);
    }
    out.append(rest);
    out
}

/// Recovers the user-visible path of `real_path`, or `None` when it does not
/// lie under `root_path`.
pub fn user_aware_path(root_path: &str, real_path: &str) -> (r: Option<String>)
    ensures
        r matches Some(s) ==> user_path_spec(root_path@, real_path@) == Some(s@),
        r is None ==> user_path_spec(root_path@, real_path@) is None,
{
    let sep = "/";
    proof {
        reveal_strlit("/");
    }
    if same_chars(real_path, root_path) {
        return Some(String::from_str(sep));
    }
    if !starts_with_chars(real_path, root_path) {
        return None;
    }
    let rl = root_path.unicode_len();
    let n = real_path.unicode_len();
    let tail = real_path.substring_char(rl, n);
    if ends_with_separator_exec(root_path) {
        let mut s = String::from_str(sep);
        s.append(tail);
        Some(s)
    } else if n > rl && real_path.get_char(rl) == '/' {
        Some(String::from_str(tail))
    } else {
        None
    }
}

fn last_separator_index(p: &str) -> (r: Option<usize>)
    ensures
        match r {
            Some(i) => last_separator(p@) == i as int,
            None => last_separator(p@) == -1,
        },
{
    let n = p.unicode_len();
    let mut i: usize = n;
    while i > 0
        invariant
            n == p@.len(),
            i <= n,
            last_separator(p@) == last_separator_before(p@, i as int),
        decreases i,
    {
        if p.get_char(i - 1) == '/' {
            return Some(i - 1);
        }
        i = i - 1;
    }
    None
}

/// The directory that contains `path`, as text before its last separator.
pub fn parent_dir(path: &str) -> (r: Option<String>)
    ensures
        r matches Some(s) ==> parent_spec(path@) == Some(s@),
        r is None ==> parent_spec(path@) is None,
{
    let n = path.unicode_len();
    match last_separator_index(path) {
        None => None,
        Some(i) => {
            if n <= 1 {
                None
            } else if i == 0 {
                let sep = "/";
                proof {
                    reveal_strlit("/");
                }
                Some(String::from_str(sep))
            } else {
                proof {
                    lemma_last_separator_bounds(path@, path@.len() as int);
                }
                Some(String::from_str(path.substring_char(0, i)))
            }
        },
    }
}

/// The last component of `path`.
pub fn file_name(path: &str) -> (r: Option<String>)
    ensures
        r matches Some(s) ==> file_name_spec(path@) == Some(s@),
        r is None ==> file_name_spec(path@) is None,
{
    let n = path.unicode_len();
    proof {
        lemma_last_separator_bounds(path@, path@.len() as int);
    }
    let start: usize = match last_separator_index(path) {
        None => 0,
        Some(i) => i + 1,
    };
    let tail = path.substring_char(start, n);
    let dots = "..";
    proof {
        reveal_strlit("..");
        assert(dots@ =~= seq!['.', '.']);
    }
    if tail.unicode_len() == 0 || same_chars(tail, dots) {
        None
    } else {
        Some(String::from_str(tail))
    }
}

} // verus!
