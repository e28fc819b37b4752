//! Paths as the library handles them: strings with `/` separators.

use vstd::prelude::*;
use vstd::string::*;

use crate::text::str_eq;

verus! {

/// The path `base/name`: `name` alone when `base` is empty, and no second
/// separator when `base` already ends with one.
pub open spec fn joined(base: Seq<char>, name: Seq<char>) -> Seq<char> {
    if base.len() == 0 {
        name
    } else if base.last() == '/' {
        base + name
    } else {
        base + seq!['/'] + name
    }
}

/// Joins `name` under the directory `base` with a `/` separator.
pub fn join_path(base: &str, name: &str) -> (r: String)
    ensures
        r@ == joined(base@, name@),
{
    proof {
        reveal_strlit("/");
    }
    let n = base.unicode_len();
    if n == 0 {
        return String::from_str(name);
    }
    let mut r = String::from_str(base);
    if base.get_char(n - 1) != '/' {
        r.append("/");
    }
    r.append(name);
    r
}

/// `p` without the `/` characters it ends with.
pub open spec fn without_trailing_slashes(p: Seq<char>) -> Seq<char>
    decreases p.len(),
{
    if p.len() > 0 && p.last() == '/' {
        without_trailing_slashes(p.drop_last())
    } else {
        p
    }
}

/// The characters of `p` after its last `/`.
pub open spec fn last_component(p: Seq<char>) -> Seq<char>
    decreases p.len(),
{
    if p.len() == 0 {
        p
    } else if p.last() == '/' {
        Seq::empty()
    } else {
        last_component(p.drop_last()).push(p.last())
    }
}

/// The file name of a path: its last component once trailing separators are
/// dropped, unless that is empty, `.` or `..`.
pub open spec fn file_name_of(p: Seq<char>) -> Option<Seq<char>> {
    let c = last_component(without_trailing_slashes(p));
    if c.len() == 0 || c == "."@ || c == ".."@ {
        None
    } else {
        Some(c)
    }
}

/// The file name of the path `p`, as `file_name_of` gives it.
pub fn file_name(p: &str) -> (r: Option<String>)
    ensures
        r is Some <==> file_name_of(p@) is Some,
        r is Some ==> r->Some_0@ == file_name_of(p@)->Some_0,
{
    let ghost s = p@;
    let n = p.unicode_len();
    let mut end: usize = n;
    assert(s.subrange(0, n as int) =~= s);
    while end > 0 && p.get_char(end - 1) == '/'
        invariant
            s == p@,
            n == s.len(),
            end <= n,
            without_trailing_slashes(s) == without_trailing_slashes(s.subrange(0, end as int)),
        decreases end,
    {
        assert(s.subrange(0, end as int).drop_last() =~= s.subrange(0, end - 1));
        end = end - 1;
    }
    let ghost t = s.subrange(0, end as int);
    assert(without_trailing_slashes(t) == t);
    let mut start: usize = end;
    assert(t.subrange(0, end as int) =~= t);
    assert(t.subrange(end as int, end as int) =~= Seq::<char>::empty());
    assert(last_component(t) + Seq::<char>::empty() =~= last_component(t));
    while start > 0 && p.get_char(start - 1) != '/'
        invariant
            s == p@,
            n == s.len(),
            start <= end <= n,
            t == s.subrange(0, end as int),
            last_component(t) == last_component(t.subrange(0, start as int)) + t.subrange(
                start as int,
                end as int,
            ),
        decreases start,
    {
        let ghost u = t.subrange(0, start as int);
        assert(u.drop_last() =~= t.subrange(0, start - 1));
        assert(last_component(u.drop_last()).push(u.last()) + t.subrange(start as int, end as int)
            =~= last_component(u.drop_last()) + t.subrange(start - 1, end as int));
        start = start - 1;
    }
    assert(last_component(t.subrange(0, start as int)) =~= Seq::<char>::empty());
    assert(last_component(t) =~= s.subrange(start as int, end as int));
    let c = p.substring_char(start, end);
    if start == end || str_eq(c, ".") || str_eq(c, "..") {
        None
    } else {
        Some(String::from_str(c))
    }
}

} // verus!
