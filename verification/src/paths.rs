//! Paths as text.
//!
//! A path is a text whose components stand between `/` characters. Empty
//! components, and `.` components other than a leading one, do not count:
//! `a//b/./` names the same file as `a/b`. What follows is purely lexical; no
//! file system is consulted.

use crate::error::Error;
use crate::text::{chars_of, push_chars, string_from};
use vstd::prelude::*;

verus! {

/// The path begins at the root directory.
pub open spec fn has_root(p: Seq<char>) -> bool {
    p.len() > 0 && p[0] == '/'
}

/// The path begins with a `.` component.
pub open spec fn has_cur_dir(p: Seq<char>) -> bool {
    p.len() > 0 && p[0] == '.' && (p.len() == 1 || p[1] == '/')
}

/// Where the components after the root or the leading `.` begin.
pub open spec fn body_start(p: Seq<char>) -> int {
    if has_root(p) || has_cur_dir(p) {
        1
    } else {
        0
    }
}

/// The end of `p[start..end]` once the separators and `.` components at its
/// end are dropped.
pub open spec fn trimmed_end(p: Seq<char>, start: int, end: int) -> int
    decreases end,
{
    if end <= start || end > p.len() || start < 0 {
        end
    } else if p[end - 1] == '/' {
        trimmed_end(p, start, end - 1)
    } else if p[end - 1] == '.' && end - 1 == start {
        start
    } else if p[end - 1] == '.' && p[end - 2] == '/' {
        trimmed_end(p, start, end - 2)
    } else {
        end
    }
}

/// Where the last component of `p[start..end]` begins: just after the last
/// separator in it, or at `start`.
pub open spec fn comp_start(p: Seq<char>, start: int, end: int) -> int
    decreases end,
{
    if end <= start || end > p.len() || start < 0 {
        end
    } else if p[end - 1] == '/' {
        end
    } else {
        comp_start(p, start, end - 1)
    }
}

/// Where the last component of the path ends.
pub open spec fn last_end(p: Seq<char>) -> int {
    trimmed_end(p, body_start(p), p.len() as int)
}

/// Where the last component of the path begins.
pub open spec fn last_start(p: Seq<char>) -> int {
    comp_start(p, body_start(p), last_end(p))
}

/// The path has a component after its root or leading `.`.
pub open spec fn has_last(p: Seq<char>) -> bool {
    last_end(p) > body_start(p)
}

/// The last component of the path.
pub open spec fn last_component(p: Seq<char>) -> Seq<char> {
    p.subrange(last_start(p), last_end(p))
}

/// The file name of the path: its last component, unless there is none or it
/// is `..`.
pub open spec fn file_name_of(p: Seq<char>) -> Option<Seq<char>> {
    if has_last(p) && last_component(p) != seq!['.', '.'] {
        Some(last_component(p))
    } else {
        None
    }
}

/// The path without its last component and the separators before it. A lone
/// `.` has the empty path as its parent; the root and the empty path have
/// none.
pub open spec fn parent_of(p: Seq<char>) -> Option<Seq<char>> {
    let start = body_start(p);
    if has_last(p) {
        let cut = if last_start(p) > start {
            last_start(p) - 1
        } else {
            start
        };
        Some(p.subrange(0, trimmed_end(p, start, cut)))
    } else if !has_root(p) && has_cur_dir(p) {
        Some(Seq::empty())
    } else {
        None
    }
}

/// The index of the last `.` in `name[..end]`, or -1.
pub open spec fn last_dot(name: Seq<char>, end: int) -> int
    decreases end,
{
    if end <= 0 || end > name.len() {
        -1
    } else if name[end - 1] == '.' {
        end - 1
    } else {
        last_dot(name, end - 1)
    }
}

/// The stem of a file name: what stands before its last `.`, or all of it
/// where it has none or begins with its only one.
pub open spec fn stem_of_name(name: Seq<char>) -> Seq<char> {
    let dot = last_dot(name, name.len() as int);
    if dot <= 0 {
        name
    } else {
        name.subrange(0, dot)
    }
}

/// The extension of a file name: what follows its last `.`, unless it has
/// none or begins with its only one.
pub open spec fn extension_of_name(name: Seq<char>) -> Option<Seq<char>> {
    let dot = last_dot(name, name.len() as int);
    if dot <= 0 {
        None
    } else {
        Some(name.subrange(dot + 1, name.len() as int))
    }
}

/// The stem of the path's file name.
pub open spec fn file_stem_of(p: Seq<char>) -> Option<Seq<char>> {
    match file_name_of(p) {
        Some(name) => Some(stem_of_name(name)),
        None => None,
    }
}

/// The extension of the path's file name.
pub open spec fn extension_of(p: Seq<char>) -> Option<Seq<char>> {
    match file_name_of(p) {
        Some(name) => extension_of_name(name),
        None => None,
    }
}

/// `path` entered from `base`: `path` itself where it begins at the root,
/// else `base`, a separator unless `base` is empty or ends in one, and `path`.
pub open spec fn joined_path(base: Seq<char>, path: Seq<char>) -> Seq<char> {
    if has_root(path) {
        path
    } else if base.len() > 0 && base.last() != '/' {
        base + seq!['/'] + path
    } else {
        base + path
    }
}

/// The path with `name` in place of its file name, or entered from it where
/// it has no file name.
pub open spec fn with_file_name_of(p: Seq<char>, name: Seq<char>) -> Seq<char> {
    if file_name_of(p) is Some {
        joined_path(parent_of(p).unwrap(), name)
    } else {
        joined_path(p, name)
    }
}

/// The path with `ext` in place of its extension. A path without a file name
/// stays as it is; an empty `ext` leaves the stem alone.
pub open spec fn with_extension_of(p: Seq<char>, ext: Seq<char>) -> Seq<char> {
    match file_stem_of(p) {
        None => p,
        Some(stem) => {
            let kept = p.subrange(0, last_start(p) + stem.len());
            if ext.len() == 0 {
                kept
            } else {
                kept + seq!['.'] + ext
            }
        },
    }
}

/// The file name that `append_suffix` gives: stem, hyphen, suffix, and the
/// extension after a dot where the name has one.
pub open spec fn suffixed_name(name: Seq<char>, suffix: Seq<char>) -> Seq<char> {
    match extension_of_name(name) {
        Some(ext) => stem_of_name(name) + seq!['-'] + suffix + seq!['.'] + ext,
        None => stem_of_name(name) + seq!['-'] + suffix,
    }
}

/// The path with `-suffix` appended to the stem of its file name.
pub open spec fn suffixed(p: Seq<char>, suffix: Seq<char>) -> Option<Seq<char>> {
    match file_name_of(p) {
        Some(name) => Some(with_file_name_of(p, suffixed_name(name, suffix))),
        None => None,
    }
}

/// The view of an optional text.
pub open spec fn chars_view(o: Option<Vec<char>>) -> Option<Seq<char>> {
    match o {
        Some(v) => Some(v@),
        None => None,
    }
}

/// The bounds of `trimmed_end`.
pub proof fn lemma_trimmed_end(p: Seq<char>, start: int, end: int)
    requires
        0 <= start <= end <= p.len(),
    ensures
        start <= trimmed_end(p, start, end) <= end,
        trimmed_end(p, start, end) > start ==> p[trimmed_end(p, start, end) - 1] != '/',
    decreases end,
{
    if end > start {
        if p[end - 1] == '/' {
            lemma_trimmed_end(p, start, end - 1);
        } else if p[end - 1] == '.' && end - 1 == start {
        } else if p[end - 1] == '.' && p[end - 2] == '/' {
            lemma_trimmed_end(p, start, end - 2);
        }
    }
}

/// The bounds of `last_dot`.
pub proof fn lemma_last_dot(name: Seq<char>, end: int)
    requires
        0 <= end <= name.len(),
    ensures
        -1 <= last_dot(name, end) < end || (end == 0 && last_dot(name, end) == -1),
        last_dot(name, end) >= 0 ==> name[last_dot(name, end)] == '.',
    decreases end,
{
    if end > 0 && name[end - 1] != '.' {
        lemma_last_dot(name, end - 1);
    }
}

/// The bounds of `comp_start`, and that no separator stands in the last
/// component.
pub proof fn lemma_comp_start(p: Seq<char>, start: int, end: int)
    requires
        0 <= start <= end <= p.len(),
    ensures
        start <= comp_start(p, start, end) <= end,
        forall|k: int| comp_start(p, start, end) <= k < end ==> #[trigger] p[k] != '/',
        comp_start(p, start, end) > start ==> p[comp_start(p, start, end) - 1] == '/',
    decreases end,
{
    if end > start && p[end - 1] != '/' {
        lemma_comp_start(p, start, end - 1);
    }
}

fn body_begin(p: &Vec<char>) -> (r: usize)
    ensures
        r == body_start(p@),
        r <= p.len(),
{
    if p.len() > 0 && (p[0] == '/' || (p[0] == '.' && (p.len() == 1 || p[1] == '/'))) {
        1
    } else {
        0
    }
}

fn trim_end(p: &Vec<char>, start: usize, end: usize) -> (r: usize)
    requires
        start <= end <= p.len(),
    ensures
        r == trimmed_end(p@, start as int, end as int),
        start <= r <= end,
{
    let mut e: usize = end;
    loop
        invariant
            start <= e <= end <= p.len(),
            trimmed_end(p@, start as int, end as int) == trimmed_end(p@, start as int, e as int),
        decreases e,
    {
        if e <= start {
            return e;
        } else if p[e - 1] == '/' {
            e -= 1;
        } else if p[e - 1] == '.' && e - 1 == start {
            return start;
        } else if p[e - 1] == '.' && p[e - 2] == '/' {
            e -= 2;
        } else {
            return e;
        }
    }
}

fn component_start(p: &Vec<char>, start: usize, end: usize) -> (r: usize)
    requires
        start <= end <= p.len(),
    ensures
        r == comp_start(p@, start as int, end as int),
        start <= r <= end,
{
    let mut e: usize = end;
    while e > start && p[e - 1] != '/'
        invariant
            start <= e <= end <= p.len(),
            comp_start(p@, start as int, end as int) == comp_start(p@, start as int, e as int),
        decreases e,
    {
        e -= 1;
    }
    e
}

/// The bounds of the path's last component: where it begins and ends, or
/// nothing where the path has none.
fn last_bounds(p: &Vec<char>) -> (r: Option<(usize, usize)>)
    ensures
        r is Some <==> has_last(p@),
        r matches Some((from, to)) ==> from == last_start(p@) && to == last_end(p@)
            && body_start(p@) <= from < to <= p.len(),
{
    let start = body_begin(p);
    let end = trim_end(p, start, p.len());
    if end > start {
        let from = component_start(p, start, end);
        proof {
            lemma_trimmed_end(p@, start as int, p.len() as int);
            lemma_comp_start(p@, start as int, end as int);
        }
        Some((from, end))
    } else {
        None
    }
}

/// The file name of the path.
pub fn file_name_chars(p: &Vec<char>) -> (out: Option<Vec<char>>)
    ensures
        chars_view(out) == file_name_of(p@),
{
    match last_bounds(p) {
        Some((from, to)) => {
            let mut name: Vec<char> = Vec::new();
            let mut i: usize = from;
            while i < to
                invariant
                    from <= i <= to <= p.len(),
                    name@ == p@.subrange(from as int, i as int),
                decreases to - i,
            {
                name.push(p[i]);
                i += 1;
                assert(p@.subrange(from as int, i as int) == p@.subrange(from as int, i - 1).push(
                    p@[i - 1],
                ));
            }
            if name.len() == 2 && name[0] == '.' && name[1] == '.' {
                assert(name@ =~= seq!['.', '.']);
                None
            } else {
                assert(name@ != seq!['.', '.']) by {
                    if name@ == seq!['.', '.'] {
                        assert(seq!['.', '.'].len() == 2);
                        assert(seq!['.', '.'][0] == '.');
                        assert(seq!['.', '.'][1] == '.');
                    }
                }
                Some(name)
            }
        },
        None => None,
    }
}

/// The path without its last component.
pub fn parent_chars(p: &Vec<char>) -> (out: Option<Vec<char>>)
    ensures
        chars_view(out) == parent_of(p@),
{
    let start = body_begin(p);
    match last_bounds(p) {
        Some((from, _)) => {
            let cut: usize = if from > start {
                (from - 1) as usize
            } else {
                start
            };
            let end = trim_end(p, start, cut);
            let mut out: Vec<char> = Vec::new();
            let mut i: usize = 0;
            while i < end
                invariant
                    i <= end <= p.len(),
                    out@ == p@.subrange(0, i as int),
                decreases end - i,
            {
                out.push(p[i]);
                i += 1;
                assert(p@.subrange(0, i as int) == p@.subrange(0, i - 1).push(p@[i - 1]));
            }
            Some(out)
        },
        None => {
            if p.len() > 0 && p[0] == '.' && (p.len() == 1 || p[1] == '/') {
                let out: Vec<char> = Vec::new();
                assert(out@ =~= Seq::<char>::empty());
                Some(out)
            } else {
                None
            }
        },
    }
}

fn dot_index(name: &Vec<char>) -> (r: Option<usize>)
    ensures
        match r {
            Some(d) => d == last_dot(name@, name.len() as int) && d < name.len(),
            None => last_dot(name@, name.len() as int) == -1,
        },
{
    let mut e: usize = name.len();
    while e > 0 && name[e - 1] != '.'
        invariant
            e <= name.len(),
            last_dot(name@, name.len() as int) == last_dot(name@, e as int),
        decreases e,
    {
        e -= 1;
    }
    if e > 0 {
        Some((e - 1) as usize)
    } else {
        None
    }
}

/// The stem of a file name.
pub fn stem_chars(name: &Vec<char>) -> (out: Vec<char>)
    ensures
        out@ == stem_of_name(name@),
        out@.len() <= name@.len(),
{
    let end: usize = match dot_index(name) {
        Some(d) => if d == 0 {
            name.len()
        } else {
            d
        },
        None => name.len(),
    };
    let mut out: Vec<char> = Vec::new();
    let mut i: usize = 0;
    while i < end
        invariant
            i <= end <= name.len(),
            out@ == name@.subrange(0, i as int),
        decreases end - i,
    {
        out.push(name[i]);
        i += 1;
        assert(name@.subrange(0, i as int) == name@.subrange(0, i - 1).push(name@[i - 1]));
    }
    assert(name@.subrange(0, name.len() as int) == name@);
    out
}

/// The extension of a file name.
pub fn extension_chars(name: &Vec<char>) -> (out: Option<Vec<char>>)
    ensures
        chars_view(out) == extension_of_name(name@),
{
    match dot_index(name) {
        Some(d) => {
            if d == 0 {
                return None;
            }
            let mut out: Vec<char> = Vec::new();
            let mut i: usize = d + 1;
            while i < name.len()
                invariant
                    d + 1 <= i <= name.len(),
                    out@ == name@.subrange(d + 1, i as int),
                decreases name.len() - i,
            {
                out.push(name[i]);
                i += 1;
                assert(name@.subrange(d + 1, i as int) == name@.subrange(d + 1, i - 1).push(
                    name@[i - 1],
                ));
            }
            Some(out)
        },
        None => None,
    }
}

/// `path` entered from `base`.
pub fn join_chars(base: &Vec<char>, path: &Vec<char>) -> (out: Vec<char>)
    ensures
        out@ == joined_path(base@, path@),
{
    let mut out: Vec<char> = Vec::new();
    if path.len() > 0 && path[0] == '/' {
        push_chars(&mut out, path);
        assert(out@ =~= path@);
        return out;
    }
    push_chars(&mut out, base);
    if base.len() > 0 && base[base.len() - 1] != '/' {
        out.push('/');
    }
    push_chars(&mut out, path);
    assert(out@ =~= joined_path(base@, path@));
    out
}

/// The path with `name` in place of its file name.
pub fn with_file_name_chars(p: &Vec<char>, name: &Vec<char>) -> (out: Vec<char>)
    ensures
        out@ == with_file_name_of(p@, name@),
{
    if file_name_chars(p).is_some() {
        match parent_chars(p) {
            Some(parent) => join_chars(&parent, name),
            None => join_chars(p, name),
        }
    } else {
        join_chars(p, name)
    }
}

/// The path with `-suffix` appended to the stem of its file name.
pub fn append_suffix_chars(p: &Vec<char>, suffix: &Vec<char>) -> (out: Option<Vec<char>>)
    ensures
        chars_view(out) == suffixed(p@, suffix@),
{
    match file_name_chars(p) {
        Some(name) => {
            let mut new_name = stem_chars(&name);
            new_name.push('-');
            push_chars(&mut new_name, suffix);
            match extension_chars(&name) {
                Some(ext) => {
                    new_name.push('.');
                    push_chars(&mut new_name, &ext);
                },
                None => {},
            }
            assert(new_name@ =~= suffixed_name(name@, suffix@));
            Some(with_file_name_chars(p, &new_name))
        },
        None => None,
    }
}

/// The path with `ext` in place of its extension.
pub fn with_extension_chars(p: &Vec<char>, ext: &Vec<char>) -> (out: Vec<char>)
    ensures
        out@ == with_extension_of(p@, ext@),
{
    let mut out: Vec<char> = Vec::new();
    match last_bounds(p) {
        Some((from, to)) => {
            match file_name_chars(p) {
                Some(name) => {
                    let stem = stem_chars(&name);
                    proof {
                        assert(name@ == p@.subrange(from as int, to as int));
                    }
                    let end: usize = from + stem.len();
                    let mut i: usize = 0;
                    while i < end
                        invariant
                            i <= end <= p.len(),
                            out@ == p@.subrange(0, i as int),
                        decreases end - i,
                    {
                        out.push(p[i]);
                        i += 1;
                        assert(p@.subrange(0, i as int) == p@.subrange(0, i - 1).push(p@[i - 1]));
                    }
                    if ext.len() > 0 {
                        out.push('.');
                        push_chars(&mut out, ext);
                    }
                    assert(out@ =~= with_extension_of(p@, ext@));
                    out
                },
                None => {
                    push_chars(&mut out, p);
                    assert(out@ =~= p@);
                    out
                },
            }
        },
        None => {
            push_chars(&mut out, p);
            assert(out@ =~= p@);
            out
        },
    }
}

/// Lexical operations on a path held as text.
pub trait PathExt {
    /// The path as text.
    spec fn path_text(&self) -> Seq<char>;

    /// Gets the file name of a path as a string.
    fn file_name(&self) -> (r: Result<String, Error>)
        ensures
            match file_name_of(self.path_text()) {
                Some(name) => r matches Ok(s) && s@ == name,
                None => r matches Err(Error::FileName(p)) && p@ == self.path_text(),
            },
    ;

    /// Gets the file stem of a path as a string.
    fn file_stem(&self) -> (r: Result<String, Error>)
        ensures
            match file_stem_of(self.path_text()) {
                Some(stem) => r matches Ok(s) && s@ == stem,
                None => r matches Err(Error::FileStem(p)) && p@ == self.path_text(),
            },
    ;

    /// Gets the file extension of a path as string.
    fn extension(&self) -> (r: Result<String, Error>)
        ensures
            match extension_of(self.path_text()) {
                Some(ext) => r matches Ok(s) && s@ == ext,
                None => r matches Err(Error::Extension(p)) && p@ == self.path_text(),
            },
    ;

    /// Gets the parent directory of a path.
    fn parent(&self) -> (r: Result<String, Error>)
        ensures
            match parent_of(self.path_text()) {
                Some(dir) => r matches Ok(s) && s@ == dir,
                None => r matches Err(Error::ParentDir(p)) && p@ == self.path_text(),
            },
    ;

    /// Converts a path to string.
    fn to_string(&self) -> (r: Result<String, Error>)
        ensures
            r matches Ok(s) && s@ == self.path_text(),
    ;

    /// Appends the suffix to the file stem of a path.
    fn append_suffix(&self, suffix: &str) -> (r: Result<String, Error>)
        ensures
            match suffixed(self.path_text(), suffix@) {
                Some(path) => r matches Ok(s) && s@ == path,
                None => r matches Err(Error::FileStem(p)) && p@ == self.path_text(),
            },
    ;
}

impl PathExt for str {
    open spec fn path_text(&self) -> Seq<char> {
        self@
    }

    fn file_name(&self) -> (r: Result<String, Error>) {
        let p = chars_of(self);
        match file_name_chars(&p) {
            Some(name) => Ok(string_from(&name)),
            None => Err(Error::FileName(string_from(&p))),
        }
    }

    fn file_stem(&self) -> (r: Result<String, Error>) {
        let p = chars_of(self);
        match file_name_chars(&p) {
            Some(name) => Ok(string_from(&stem_chars(&name))),
            None => Err(Error::FileStem(string_from(&p))),
        }
    }

    fn extension(&self) -> (r: Result<String, Error>) {
        let p = chars_of(self);
        match file_name_chars(&p) {
            Some(name) => match extension_chars(&name) {
                Some(ext) => Ok(string_from(&ext)),
                None => Err(Error::Extension(string_from(&p))),
            },
            None => Err(Error::Extension(string_from(&p))),
        }
    }

    fn parent(&self) -> (r: Result<String, Error>) {
        let p = chars_of(self);
        match parent_chars(&p) {
            Some(dir) => Ok(string_from(&dir)),
            None => Err(Error::ParentDir(string_from(&p))),
        }
    }

    fn to_string(&self) -> (r: Result<String, Error>) {
        let p = chars_of(self);
        Ok(string_from(&p))
    }

    fn append_suffix(&self, suffix: &str) -> (r: Result<String, Error>) {
        let p = chars_of(self);
        let tail = chars_of(suffix);
        match append_suffix_chars(&p, &tail) {
            Some(path) => Ok(string_from(&path)),
            None => Err(Error::FileStem(string_from(&p))),
        }
    }
}

/// `path` entered from `base`.
pub fn join_path(base: &str, path: &str) -> (out: String)
    ensures
        out@ == joined_path(base@, path@),
{
    let b = chars_of(base);
    let p = chars_of(path);
    string_from(&join_chars(&b, &p))
}

/// The path with `ext` in place of its extension.
pub fn with_extension(path: &str, ext: &str) -> (out: String)
    ensures
        out@ == with_extension_of(path@, ext@),
{
    let p = chars_of(path);
    let e = chars_of(ext);
    string_from(&with_extension_chars(&p, &e))
}

/// The path with `name` in place of its file name.
pub fn with_file_name(path: &str, name: &str) -> (out: String)
    ensures
        out@ == with_file_name_of(path@, name@),
{
    let p = chars_of(path);
    let n = chars_of(name);
    string_from(&with_file_name_chars(&p, &n))
}

} // verus!
