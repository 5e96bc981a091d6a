//! Paths, held as UTF-8 text: joining, file names, extensions and stems.

use vstd::prelude::*;
use crate::text::{owned, eq_ignore_ascii_case, str_eq_ignore_ascii_case};

verus! {

/// Name for the path that `std::path::Path::join` builds from `base` and
/// `rel` (how components and separators combine depends on the platform).
pub uninterp spec fn joined(base: Seq<char>, rel: Seq<char>) -> Seq<char>;

/// Name for the final component of a path as `std::path::Path::file_name`
/// finds it (`None` when the path ends in `..` or has no component).
pub uninterp spec fn file_name_of(path: Seq<char>) -> Option<Seq<char>>;

/// Whether a text holds a character.
pub open spec fn has_char(s: Seq<char>, c: char) -> bool {
    exists|i: int| 0 <= i < s.len() && s[i] == c
}

/// Index of the last `/` in a path, or -1 when there is none.
pub open spec fn last_slash(p: Seq<char>) -> int
    decreases p.len(),
{
    if p.len() == 0 {
        -1
    } else if p.last() == '/' {
        p.len() - 1
    } else {
        last_slash(p.drop_last())
    }
}

/// The text after the last `/` of a path (all of it when there is none).
pub open spec fn last_segment(p: Seq<char>) -> Seq<char> {
    p.subrange(last_slash(p) + 1, p.len() as int)
}

/// A name that can stand as a component: not empty, not `.` or `..`, and
/// without `/`.
pub open spec fn plain_name(n: Seq<char>) -> bool {
    &&& n.len() > 0
    &&& n != seq!['.']
    &&& n != seq!['.', '.']
    &&& !has_char(n, '/')
}

/// A path whose final component is plain text after its last `/`: no `\` and
/// no `:` (so no other separator and no drive or verbatim prefix on any
/// platform), not opening with `//` (no network share), and ending in a plain
/// name.
pub open spec fn plain_path(p: Seq<char>) -> bool {
    &&& !has_char(p, '\\')
    &&& !has_char(p, ':')
    &&& !(p.len() >= 2 && p[0] == '/' && p[1] == '/')
    &&& plain_name(last_segment(p))
}

/// The final component of a path: on a plain path, the text after its last
/// `/`; otherwise as `Path::file_name` finds it.
pub open spec fn file_name_spec(p: Seq<char>) -> Option<Seq<char>> {
    if plain_path(p) {
        Some(last_segment(p))
    } else {
        file_name_of(p)
    }
}

/// The text of an optional string.
pub open spec fn opt_text(o: Option<String>) -> Option<Seq<char>> {
    match o {
        Some(s) => Some(s@),
        None => None,
    }
}

/// Joins `rel` onto `base`.
///
/// Trusted: calls `std::path::Path::join`; the contract only names the
/// result (`joined`). Both arguments are UTF-8, so the joined path is too and
/// the conversion back to a `String` loses nothing.
#[verifier::external_body]
pub(crate) fn join_path(base: &str, rel: &str) -> (r: String)
    ensures
        r@ == joined(base@, rel@),
{
    std::path::Path::new(base).join(rel).to_string_lossy().into_owned()
}

/// The final component of a path.
///
/// Trusted: calls `std::path::Path::file_name`; the contract names the
/// result (`file_name_of`) and states what std documents for a plain path:
/// the final component, which is the text after the last `/`. (`/` separates
/// components on every platform; without `\`, `:` and a leading `//` there
/// is no other separator and no prefix; `.` components are skipped and `..`
/// has no file name, which `plain_name` leaves out.)
#[verifier::external_body]
pub(crate) fn file_name(path: &str) -> (r: Option<String>)
    ensures
        opt_text(r) == file_name_of(path@),
        plain_path(path@) ==> opt_text(r) == Some(last_segment(path@)),
{
    match std::path::Path::new(path).file_name() {
        Some(n) => Some(n.to_string_lossy().into_owned()),
        None => None,
    }
}

/// Index of the last `.` in a file name, or -1 when there is none.
pub open spec fn last_dot(name: Seq<char>) -> int
    decreases name.len(),
{
    if name.len() == 0 {
        -1
    } else if name.last() == '.' {
        name.len() - 1
    } else {
        last_dot(name.drop_last())
    }
}

/// The extension of a file name as std documents `Path::extension`: the part
/// after the final `.`; none when there is no `.`, or when the only `.` opens
/// the name.
pub open spec fn name_extension(name: Seq<char>) -> Option<Seq<char>> {
    let k = last_dot(name);
    if k <= 0 {
        None
    } else {
        Some(name.subrange(k + 1, name.len() as int))
    }
}

/// The stem of a file name as std documents `Path::file_stem`: the part before
/// the final `.`; the whole name when there is no `.`, or when the only `.`
/// opens the name.
pub open spec fn name_stem(name: Seq<char>) -> Seq<char> {
    let k = last_dot(name);
    if k <= 0 {
        name
    } else {
        name.subrange(0, k)
    }
}

/// Extension of a path.
pub open spec fn path_extension(path: Seq<char>) -> Option<Seq<char>> {
    match file_name_spec(path) {
        Some(n) => name_extension(n),
        None => None,
    }
}

/// Stem of a path.
pub open spec fn path_stem(path: Seq<char>) -> Option<Seq<char>> {
    match file_name_spec(path) {
        Some(n) => Some(name_stem(n)),
        None => None,
    }
}

fn find_last_dot(name: &str) -> (r: Option<usize>)
    ensures
        match r {
            Some(k) => k as int == last_dot(name@),
            None => last_dot(name@) == -1,
        },
        r matches Some(k) ==> k < name@.len(),
{
    let n = name.unicode_len();
    let mut found: Option<usize> = None;
    let mut i: usize = 0;
    assert(name@.take(0) =~= Seq::<char>::empty());
    while i < n
        invariant
            n == name@.len(),
            i <= n,
            match found {
                Some(k) => k as int == last_dot(name@.take(i as int)) && k < i,
                None => last_dot(name@.take(i as int)) == -1,
            },
        decreases n - i,
    {
        assert(name@.take(i + 1).drop_last() =~= name@.take(i as int));
        if name.get_char(i) == '.' {
            found = Some(i);
        }
        i = i + 1;
    }
    assert(name@.take(n as int) =~= name@);
    found
}

/// Extension of a path, as `Path::extension` gives it.
pub fn extension_of(path: &str) -> (r: Option<String>)
    ensures
        opt_text(r) == path_extension(path@),
{
    match file_name(path) {
        None => None,
        Some(name) => {
            let n = name.as_str().unicode_len();
            match find_last_dot(name.as_str()) {
                None => None,
                Some(k) => {
                    if k == 0 {
                        None
                    } else {
                        Some(owned(name.as_str().substring_char(k + 1, n)))
                    }
                },
            }
        },
    }
}

/// Stem of a path, as `Path::file_stem` gives it.
pub fn stem_of(path: &str) -> (r: Option<String>)
    ensures
        opt_text(r) == path_stem(path@),
{
    match file_name(path) {
        None => None,
        Some(name) => {
            match find_last_dot(name.as_str()) {
                None => Some(name),
                Some(k) => {
                    if k == 0 {
                        Some(name)
                    } else {
                        Some(owned(name.as_str().substring_char(0, k)))
                    }
                },
            }
        },
    }
}

proof fn lemma_last_slash_of_entry(dir: Seq<char>, name: Seq<char>)
    requires
        !has_char(name, '/'),
    ensures
        last_slash(dir + seq!['/'] + name) == dir.len(),
    decreases name.len(),
{
    let p = dir + seq!['/'] + name;
    if name.len() == 0 {
        assert(p.last() == '/');
    } else {
        assert(p.last() == name.last());
        assert(name[name.len() - 1] == name.last());
        assert(p.drop_last() =~= dir + seq!['/'] + name.drop_last());
        assert(!has_char(name.drop_last(), '/')) by {
            if has_char(name.drop_last(), '/') {
                let i = choose|i: int| 0 <= i < name.drop_last().len() && name.drop_last()[i] == '/';
                assert(name[i] == '/');
            }
        }
        lemma_last_slash_of_entry(dir, name.drop_last());
    }
}

/// The final component of a plain path holds no `/`, and the path ends with
/// it.
pub proof fn law_file_name_is_final_component(p: Seq<char>)
    requires
        plain_path(p),
    ensures
        file_name_spec(p) matches Some(n) && !has_char(n, '/') && n.len() <= p.len() && p.subrange(
            p.len() - n.len(),
            p.len() as int,
        ) == n,
{
    lemma_last_slash_bounds(p);
    let n = last_segment(p);
    assert(p.subrange(p.len() - n.len(), p.len() as int) =~= n);
}

proof fn lemma_last_slash_bounds(p: Seq<char>)
    ensures
        -1 <= last_slash(p) < p.len(),
    decreases p.len(),
{
    if p.len() > 0 && p.last() != '/' {
        lemma_last_slash_bounds(p.drop_last());
    }
}

/// A directory entry `dir/name`, with `name` a plain name and neither part
/// holding `\` or `:` (and `dir` not opening with `//`): its file name is
/// `name`, so its stem and extension are those of `name`.
pub proof fn law_file_name_of_entry(dir: Seq<char>, name: Seq<char>)
    requires
        plain_name(name),
        !has_char(dir, '\\'),
        !has_char(dir, ':'),
        !has_char(name, '\\'),
        !has_char(name, ':'),
        !(dir.len() >= 2 && dir[0] == '/' && dir[1] == '/'),
        dir != seq!['/'],
    ensures
        file_name_spec(dir + seq!['/'] + name) == Some(name),
        path_stem(dir + seq!['/'] + name) == Some(name_stem(name)),
        path_extension(dir + seq!['/'] + name) == name_extension(name),
{
    let p = dir + seq!['/'] + name;
    lemma_last_slash_of_entry(dir, name);
    assert(last_segment(p) =~= name);
    assert(!has_char(p, '\\')) by {
        if has_char(p, '\\') {
            let i = choose|i: int| 0 <= i < p.len() && p[i] == '\\';
            if i < dir.len() {
                assert(dir[i] == '\\');
            } else if i > dir.len() {
                assert(name[i - dir.len() - 1] == '\\');
            }
        }
    }
    assert(!has_char(p, ':')) by {
        if has_char(p, ':') {
            let i = choose|i: int| 0 <= i < p.len() && p[i] == ':';
            if i < dir.len() {
                assert(dir[i] == ':');
            } else if i > dir.len() {
                assert(name[i - dir.len() - 1] == ':');
            }
        }
    }
    assert(!(p.len() >= 2 && p[0] == '/' && p[1] == '/')) by {
        if dir.len() == 0 {
            assert(p[1] == name[0]);
            assert(name[0] != '/');
        } else if dir.len() == 1 {
            assert(p[0] == dir[0]);
            if dir[0] == '/' {
                assert(dir =~= seq!['/']);
            }
        } else {
            assert(p[0] == dir[0] && p[1] == dir[1]);
        }
    }
}

/// A path whose extension equals `ext`, ignoring ASCII case.
pub open spec fn has_extension(path: Seq<char>, ext: Seq<char>) -> bool {
    match path_extension(path) {
        Some(e) => eq_ignore_ascii_case(e, ext),
        None => false,
    }
}

/// Decides `has_extension`.
pub fn has_extension_ignore_case(path: &str, ext: &str) -> (r: bool)
    ensures
        r == has_extension(path@, ext@),
{
    match extension_of(path) {
        Some(e) => str_eq_ignore_ascii_case(e.as_str(), ext),
        None => false,
    }
}

/// The paths with extension `ext` (ignoring ASCII case), in their order.
pub open spec fn with_extension(paths: Seq<String>, ext: Seq<char>) -> Seq<String>
    decreases paths.len(),
{
    if paths.len() == 0 {
        Seq::empty()
    } else {
        let rest = with_extension(paths.drop_last(), ext);
        if has_extension(paths.last()@, ext) {
            rest.push(paths.last())
        } else {
            rest
        }
    }
}

/// Keeps the paths whose extension is `ext`, ignoring ASCII case, in order.
pub fn filter_by_extension(paths: &Vec<String>, ext: &str) -> (r: Vec<String>)
    ensures
        r@ == with_extension(paths@, ext@),
{
    let mut r: Vec<String> = Vec::new();
    let mut i: usize = 0;
    while i < paths.len()
        invariant
            i <= paths.len(),
            r@ == with_extension(paths@.take(i as int), ext@),
        decreases paths.len() - i,
    {
        assert(paths@.take(i + 1).drop_last() =~= paths@.take(i as int));
        if has_extension_ignore_case(paths[i].as_str(), ext) {
            r.push(paths[i].clone());
        }
        i = i + 1;
    }
    assert(paths@.take(paths.len() as int) =~= paths@);
    r
}

} // verus!
