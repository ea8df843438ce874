use vstd::prelude::*;

use crate::text::str_equals;

verus! {

/// The index just after the last `c` in `s`, or 0 when `s` holds no `c`.
pub open spec fn after_last(s: Seq<char>, c: char) -> int
    decreases s.len(),
{
    if s.len() == 0 {
        0
    } else if s.last() == c {
        s.len() as int
    } else {
        after_last(s.drop_last(), c)
    }
}

proof fn lemma_after_last_bounds(s: Seq<char>, c: char)
    ensures
        0 <= after_last(s, c) <= s.len(),
        forall|j: int| after_last(s, c) <= j < s.len() ==> s[j] != c,
        after_last(s, c) > 0 ==> s[after_last(s, c) - 1] == c,
    decreases s.len(),
{
    if s.len() > 0 && s.last() != c {
        lemma_after_last_bounds(s.drop_last(), c);
        assert forall|j: int| after_last(s, c) <= j < s.len() implies s[j] != c by {
            if j < s.len() - 1 {
                assert(s.drop_last()[j] == s[j]);
            }
        }
    }
}

/// The last component of a path: trailing separators and trailing `.`
/// components are not components of their own.
pub open spec fn final_component(p: Seq<char>) -> Seq<char>
    decreases p.len(),
{
    if p.len() == 0 {
        p
    } else if p.last() == '/' {
        final_component(p.drop_last())
    } else if p.last() == '.' && p.len() >= 2 && p[p.len() - 2] == '/' {
        final_component(p.drop_last())
    } else {
        p.subrange(after_last(p, '/'), p.len() as int)
    }
}

/// The file name of a path: its last component, unless that is empty, `.` or `..`.
pub open spec fn file_name_of(p: Seq<char>) -> Option<Seq<char>> {
    let c = final_component(p);
    if c.len() == 0 || c == "."@ || c == ".."@ {
        None
    } else {
        Some(c)
    }
}

/// The extension of a path: what follows the last `.` of its file name, where
/// that `.` is not the name's first character.
pub open spec fn extension_of(p: Seq<char>) -> Option<Seq<char>> {
    match file_name_of(p) {
        None => None,
        Some(n) => {
            let k = after_last(n, '.');
            if k <= 1 {
                None
            } else {
                Some(n.subrange(k, n.len() as int))
            }
        },
    }
}

/// A path with its one leading `/`, if any, removed.
pub open spec fn without_leading_slash(p: Seq<char>) -> Seq<char> {
    if p.len() > 0 && p[0] == '/' {
        p.drop_first()
    } else {
        p
    }
}

/// `root` extended by `rel`: an absolute `rel` replaces `root`, and a single
/// separator is put between the two where `root` does not end in one.
pub open spec fn joined(root: Seq<char>, rel: Seq<char>) -> Seq<char> {
    if rel.len() > 0 && rel[0] == '/' {
        rel
    } else if root.len() == 0 {
        rel
    } else if root.last() == '/' {
        root + rel
    } else {
        root + "/"@ + rel
    }
}

/// The index just after the last `c` among the first `end` characters of `s`.
fn after_last_before(s: &str, end: usize, c: char) -> (r: usize)
    requires
        end <= s@.len(),
    ensures
        r == after_last(s@.subrange(0, end as int), c),
{
    let mut i: usize = end;
    while i > 0
        invariant
            i <= end <= s@.len(),
            after_last(s@.subrange(0, i as int), c) == after_last(s@.subrange(0, end as int), c),
        decreases i,
    {
        if s.get_char(i - 1) == c {
            return i;
        }
        assert(s@.subrange(0, i as int).drop_last() =~= s@.subrange(0, i - 1));
        i = i - 1;
    }
    i
}

/// The last component of a path (see `final_component`).
pub fn last_component(p: &str) -> (r: &str)
    ensures
        r@ == final_component(p@),
{
    let mut end: usize = p.unicode_len();
    let mut trimmed = false;
    assert(p@.subrange(0, end as int) =~= p@);
    while end > 0 && !trimmed
        invariant
            end <= p@.len(),
            final_component(p@.subrange(0, end as int)) == final_component(p@),
            trimmed ==> end > 0 && final_component(p@.subrange(0, end as int))
                == p@.subrange(0, end as int).subrange(
                after_last(p@.subrange(0, end as int), '/'),
                end as int,
            ),
        decreases end + (if trimmed { 0int } else { 1int }),
    {
        let c = p.get_char(end - 1);
        let q = Ghost(p@.subrange(0, end as int));
        assert(q@.drop_last() =~= p@.subrange(0, end - 1));
        assert(q@.last() == c);
        if c == '/' {
            end = end - 1;
        } else if c == '.' && end >= 2 && p.get_char(end - 2) == '/' {
            assert(q@[q@.len() - 2] == '/');
            end = end - 1;
        } else {
            trimmed = true;
        }
    }
    let q = Ghost(p@.subrange(0, end as int));
    let s = after_last_before(p, end, '/');
    proof {
        lemma_after_last_bounds(q@, '/');
    }
    let r = p.substring_char(s, end);
    assert(r@ =~= q@.subrange(s as int, end as int));
    r
}

/// The file extension of a path, as `std::path::Path::extension` finds it.
pub fn extension(p: &str) -> (r: Option<&str>)
    ensures
        match r {
            Some(e) => extension_of(p@) == Some(e@),
            None => extension_of(p@).is_none(),
        },
{
    let c = last_component(p);
    let n = c.unicode_len();
    if n == 0 || str_equals(c, ".") || str_equals(c, "..") {
        return None;
    }
    let k = after_last_before(c, n, '.');
    assert(c@.subrange(0, n as int) =~= c@);
    proof {
        lemma_after_last_bounds(c@, '.');
    }
    if k <= 1 {
        None
    } else {
        Some(c.substring_char(k, n))
    }
}

/// Removes one leading `/` from a request path.
pub fn strip_leading_slash(p: &str) -> (r: &str)
    ensures
        r@ == without_leading_slash(p@),
{
    let n = p.unicode_len();
    if n > 0 && p.get_char(0) == '/' {
        let r = p.substring_char(1, n);
        assert(r@ =~= p@.drop_first());
        r
    } else {
        p
    }
}

/// Extends `root` by `rel`, as pushing `rel` onto a `PathBuf` holding `root` does.
pub fn join_path(root: &str, rel: &str) -> (r: String)
    ensures
        r@ == joined(root@, rel@),
{
    let n = root.unicode_len();
    if rel.unicode_len() > 0 && rel.get_char(0) == '/' {
        String::from_str(rel)
    } else if n == 0 {
        String::from_str(rel)
    } else if root.get_char(n - 1) == '/' {
        let mut r = String::from_str(root);
        r.append(rel);
        r
    } else {
        let mut r = String::from_str(root);
        r.append("/");
        r.append(rel);
        r
    }
}

} // verus!
