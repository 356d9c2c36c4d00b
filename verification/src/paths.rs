//! Paths as text.

use crate::text::{ends_with, has_prefix, has_suffix, join2, join3, starts_with};
use vstd::prelude::*;

verus! {

/// `name` below `dir`. An absolute name stands for itself; a slash comes in
/// between unless `dir` is empty or ends in one.
pub open spec fn below(dir: Seq<char>, name: Seq<char>) -> Seq<char> {
    if starts_with(name, "/"@) {
        name
    } else if dir.len() == 0 || ends_with(dir, "/"@) {
        dir + name
    } else {
        dir + "/"@ + name
    }
}

/// `name` below `dir`.
pub fn path_below(dir: &str, name: &str) -> (r: String)
    ensures
        r@ == below(dir@, name@),
{
    if has_prefix(name, "/") {
        name.to_owned()
    } else if dir.is_empty() || has_suffix(dir, "/") {
        join2(dir, name)
    } else {
        join3(dir, "/", name)
    }
}

/// The relative `name` below `dir` on Windows, where either slash separates
/// and a bare drive takes none.
pub open spec fn windows_below(dir: Seq<char>, name: Seq<char>) -> Seq<char> {
    if dir.len() == 0 || ends_with(dir, "/"@) || ends_with(dir, "\\"@) || (dir.len() == 2
        && ends_with(dir, ":"@)) {
        dir + name
    } else {
        dir + "\\"@ + name
    }
}

/// The relative `name` below `dir` on Windows.
pub fn windows_path_below(dir: &str, name: &str) -> (r: String)
    ensures
        r@ == windows_below(dir@, name@),
{
    if dir.is_empty() || has_suffix(dir, "/") || has_suffix(dir, "\\") || (dir.unicode_len() == 2
        && has_suffix(dir, ":")) {
        join2(dir, name)
    } else {
        join3(dir, "\\", name)
    }
}

/// What lies below a directory that lies below another is below both: a name
/// of several parts may be taken apart.
pub proof fn law_parts_may_be_taken_one_by_one(dir: Seq<char>, first: Seq<char>, rest: Seq<char>)
    requires
        first.len() > 0,
        !starts_with(first, "/"@),
        !ends_with(first, "/"@),
        !starts_with(rest, "/"@),
    ensures
        below(below(dir, first), rest) == below(dir, first + "/"@ + rest),
{
    reveal_strlit("/");
    let slash = "/"@;
    let whole = first + slash + rest;
    if starts_with(whole, slash) {
        assert(whole.subrange(0, 1)[0] == first[0]);
        assert(first.subrange(0, 1) =~= slash);
    }
    let inner = below(dir, first);
    assert(inner.last() == first.last());
    if ends_with(inner, slash) {
        assert(inner.subrange(inner.len() - 1, inner.len() as int)[0] == first.last());
        assert(first.subrange(first.len() - 1, first.len() as int) =~= slash);
    }
    assert(inner + slash + rest =~= below(dir, whole));
}

/// A relative name ends the path that lies below a directory, and the directory
/// begins it; between them stands one slash, which the directory may bring.
pub proof fn law_path_begins_with_its_directory(dir: &str, name: &str, r: String)
    requires
        call_ensures(path_below, (dir, name), r),
        !starts_with(name@, "/"@),
    ensures
        r@.len() >= dir@.len() + name@.len(),
        r@.take(dir@.len() as int) == dir@,
        r@.skip(r@.len() - name@.len()) == name@,
        r@.len() <= dir@.len() + 1 + name@.len(),
        dir@.len() > 0 ==> r@[r@.len() - name@.len() - 1] == '/',
        dir@.len() > 0 && dir@.last() == '/' ==> r@ == dir@ + name@,
        dir@.len() == 0 ==> r@ == name@,
{
    reveal_strlit("/");
    assert(r@.take(dir@.len() as int) =~= dir@);
    assert(r@.skip(r@.len() - name@.len()) =~= name@);
    if dir@.len() > 0 {
        let n = dir@.len() as int;
        if ends_with(dir@, "/"@) {
            assert(dir@.subrange(n - 1, n)[0] == dir@[n - 1]);
        } else if dir@.last() == '/' {
            assert(dir@.subrange(n - 1, n) =~= "/"@);
        }
    } else {
        assert(dir@ + name@ =~= name@);
    }
}

/// An absolute name stands for itself, whatever the directory.
pub proof fn law_absolute_name_stands_for_itself(dir: &str, name: &str, r: String)
    requires
        call_ensures(path_below, (dir, name), r),
        name@.len() > 0,
        name@[0] == '/',
    ensures
        r@ == name@,
{
    reveal_strlit("/");
    assert(name@.subrange(0, 1) =~= "/"@);
}

/// On Windows either slash separates, a backslash is added where none stands, and a
/// bare drive takes none.
pub proof fn law_windows_path_begins_with_its_directory(dir: &str, name: &str, r: String)
    requires
        call_ensures(windows_path_below, (dir, name), r),
    ensures
        r@.take(dir@.len() as int) == dir@,
        r@.skip(r@.len() - name@.len()) == name@,
        r@.len() == dir@.len() + name@.len() || (r@.len() == dir@.len() + 1 + name@.len()
            && r@[dir@.len() as int] == '\\'),
        r@.len() == dir@.len() + name@.len() <==> dir@.len() == 0 || dir@.last() == '/'
            || dir@.last() == '\\' || (dir@.len() == 2 && dir@[1] == ':'),
{
    reveal_strlit("/");
    reveal_strlit("\\");
    reveal_strlit(":");
    assert(r@.take(dir@.len() as int) =~= dir@);
    assert(r@.skip(r@.len() - name@.len()) =~= name@);
    if dir@.len() > 0 {
        let n = dir@.len() as int;
        let end = dir@.subrange(n - 1, n);
        assert(end[0] == dir@.last());
        if dir@.last() == '/' {
            assert(end =~= "/"@);
        }
        if dir@.last() == '\\' {
            assert(end =~= "\\"@);
        }
        if dir@.last() == ':' {
            assert(end =~= ":"@);
        }
    }
}

} // verus!
