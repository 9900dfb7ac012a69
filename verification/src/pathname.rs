//! Path names as texts: components, parents and joins.
//!
//! The hooks see the paths of the platform they are built for, whatever
//! machine the launcher was written on, so the separator is a parameter
//! here and nothing is asked of the operating system. A path is split at
//! its separators; `.` and `..` are never taken for names. A path may begin
//! with a root: the separators it starts with, on Windows behind a drive
//! such as `C:` where there is one. A root has no name and no parent, and
//! the parent of what stands directly under it is the root as the path
//! writes it. Longer prefixes of Windows, such as those of network shares,
//! are read as components.

use crate::text::{chars_of, concat2, concat3};
use vstd::prelude::*;

verus! {

/// Which characters separate the components of a path.
#[derive(Clone, Copy, Debug, PartialEq, Eq, Structural)]
pub enum PathStyle {
    /// `/` alone.
    Posix,
    /// `\` and `/`.
    Windows,
}

impl PathStyle {
    /// `c` separates components.
    pub open spec fn separates(self, c: char) -> bool {
        c == '/' || (self == PathStyle::Windows && c == '\\')
    }

    /// The separator that a join writes.
    pub open spec fn main_separator(self) -> char {
        if self == PathStyle::Windows {
            '\\'
        } else {
            '/'
        }
    }

    /// Whether `c` separates components.
    pub fn is_separator(self, c: char) -> (r: bool)
        ensures
            r == self.separates(c),
    {
        match self {
            PathStyle::Posix => c == '/',
            PathStyle::Windows => c == '/' || c == '\\',
        }
    }

    /// The separator that a join writes, as a text.
    pub fn separator_text(self) -> (r: &'static str)
        ensures
            r@ == seq![self.main_separator()],
    {
        match self {
            PathStyle::Posix => {
                proof {
                    reveal_strlit("/");
                }
                assert("/"@ =~= seq!['/']);
                "/"
            },
            PathStyle::Windows => {
                proof {
                    reveal_strlit("\\");
                }
                assert("\\"@ =~= seq!['\\']);
                "\\"
            },
        }
    }
}

/// No character of `s` is a separator.
pub open spec fn separator_free(style: PathStyle, s: Seq<char>) -> bool {
    forall|i: int| 0 <= i < s.len() ==> !style.separates(#[trigger] s[i])
}

/// The length of `s` without its trailing separators.
pub open spec fn trimmed_len(style: PathStyle, s: Seq<char>) -> int
    decreases s.len(),
{
    if s.len() > 0 && style.separates(s.last()) {
        trimmed_len(style, s.drop_last())
    } else {
        s.len() as int
    }
}

/// The index just behind the last separator of `s`, 0 where it has none.
pub open spec fn name_start(style: PathStyle, s: Seq<char>) -> int
    decreases s.len(),
{
    if s.len() == 0 || style.separates(s.last()) {
        s.len() as int
    } else {
        name_start(style, s.drop_last())
    }
}

/// `n` can name a file or a directory: it is neither empty nor `.` nor `..`.
pub open spec fn is_name(n: Seq<char>) -> bool {
    n.len() > 0 && n != seq!['.'] && n != seq!['.', '.']
}

/// `c` can name a drive: it is a letter of the Latin alphabet.
pub open spec fn is_drive_letter(c: char) -> bool {
    ('a' <= c && c <= 'z') || ('A' <= c && c <= 'Z')
}

/// The length of the drive that `s` begins with: 2 on Windows where `s`
/// begins with a letter and a colon, 0 elsewhere.
pub open spec fn drive_len(style: PathStyle, s: Seq<char>) -> int {
    if style == PathStyle::Windows && s.len() >= 2 && is_drive_letter(s[0]) && s[1] == ':' {
        2
    } else {
        0
    }
}

/// The number of separators that stand in `s` in a row from index `i` on.
pub open spec fn separators_from(style: PathStyle, s: Seq<char>, i: int) -> int
    decreases s.len() - i,
{
    if 0 <= i < s.len() && style.separates(s[i]) {
        1 + separators_from(style, s, i + 1)
    } else {
        0
    }
}

/// The length of the root of `s`: its drive and the separators that follow
/// it.
pub open spec fn root_len(style: PathStyle, s: Seq<char>) -> int {
    drive_len(style, s) + separators_from(style, s, drive_len(style, s))
}

/// Where the last component of `s` ends: `s` without its trailing
/// separators, but never less than its root.
pub open spec fn body_end(style: PathStyle, s: Seq<char>) -> int {
    if trimmed_len(style, s) < root_len(style, s) {
        root_len(style, s)
    } else {
        trimmed_len(style, s)
    }
}

/// Where the last component of `s` begins: behind the last separator in
/// front of its end, but never inside its root.
pub open spec fn last_start(style: PathStyle, s: Seq<char>) -> int {
    let k = name_start(style, s.take(body_end(style, s)));
    if k < root_len(style, s) {
        root_len(style, s)
    } else {
        k
    }
}

/// The last component of `s`, trailing separators set aside, where it is a
/// name. A root has none.
pub open spec fn file_name(style: PathStyle, s: Seq<char>) -> Option<Seq<char>> {
    let n = s.subrange(last_start(style, s), body_end(style, s));
    if body_end(style, s) > root_len(style, s) && is_name(n) {
        Some(n)
    } else {
        None
    }
}

/// `s` without its last component. A path that is empty or a root alone
/// has no parent; the parent of a single relative component is empty; the
/// parent of a component that stands directly under the root is the root
/// as `s` writes it, so the parent of `C:\Discord.exe` is `C:\`.
pub open spec fn parent(style: PathStyle, s: Seq<char>) -> Option<Seq<char>> {
    if body_end(style, s) <= root_len(style, s) {
        None
    } else if last_start(style, s) <= root_len(style, s) {
        Some(s.take(root_len(style, s)))
    } else {
        Some(s.take(trimmed_len(style, s.take(last_start(style, s)))))
    }
}

/// The parent of the parent of `s`.
pub open spec fn grandparent(style: PathStyle, s: Seq<char>) -> Option<Seq<char>> {
    match parent(style, s) {
        Some(p) => parent(style, p),
        None => None,
    }
}

/// `part` below `base`. A `part` that begins with a separator stands for
/// itself; otherwise one separator is written between the two unless `base`
/// is empty or already ends with one.
pub open spec fn join(style: PathStyle, base: Seq<char>, part: Seq<char>) -> Seq<char> {
    if part.len() > 0 && style.separates(part[0]) {
        part
    } else if base.len() == 0 || style.separates(base.last()) {
        base + part
    } else {
        base + seq![style.main_separator()] + part
    }
}

/// `trimmed_len` of the first `len` characters of `v`.
fn trimmed_len_of(style: PathStyle, v: &Vec<char>, len: usize) -> (r: usize)
    requires
        len <= v.len(),
    ensures
        r == trimmed_len(style, v@.take(len as int)),
        r <= len,
{
    let mut i: usize = len;
    while i > 0 && style.is_separator(v[i - 1])
        invariant
            i <= len <= v.len(),
            trimmed_len(style, v@.take(len as int)) == trimmed_len(style, v@.take(i as int)),
        decreases i,
    {
        assert(v@.take(i as int).drop_last() =~= v@.take(i - 1));
        i -= 1;
    }
    proof {
        lemma_nothing_to_trim(style, v@, i as int);
    }
    i
}

/// Helper of `trimmed_len_of`: where the scan stops, nothing is left to trim.
proof fn lemma_nothing_to_trim(style: PathStyle, s: Seq<char>, i: int)
    requires
        0 <= i <= s.len(),
        i > 0 ==> !style.separates(s[i - 1]),
    ensures
        trimmed_len(style, s.take(i)) == i,
{
}

/// `name_start` of the first `len` characters of `v`.
fn name_start_of(style: PathStyle, v: &Vec<char>, len: usize) -> (r: usize)
    requires
        len <= v.len(),
    ensures
        r == name_start(style, v@.take(len as int)),
        r <= len,
{
    let mut i: usize = len;
    while i > 0 && !style.is_separator(v[i - 1])
        invariant
            i <= len <= v.len(),
            name_start(style, v@.take(len as int)) == name_start(style, v@.take(i as int)),
        decreases i,
    {
        assert(v@.take(i as int).drop_last() =~= v@.take(i - 1));
        i -= 1;
    }
    i
}

/// Whether the characters of `v` from `from` to `to` are a name.
fn is_name_range(v: &Vec<char>, from: usize, to: usize) -> (r: bool)
    requires
        from <= to <= v.len(),
    ensures
        r == is_name(v@.subrange(from as int, to as int)),
{
    let n: usize = to - from;
    let ghost s = v@.subrange(from as int, to as int);
    assert(s.len() == n);
    assert(seq!['.'].len() == 1 && seq!['.', '.'].len() == 2);
    if n == 0 {
        false
    } else if n == 1 {
        assert(s[0] == v@[from as int]);
        assert(s == seq!['.'] <==> s[0] == '.') by {
            if s[0] == '.' {
                assert(s =~= seq!['.']);
            } else {
                assert(seq!['.'][0] == '.');
            }
        }
        v[from] != '.'
    } else if n == 2 {
        assert(s[0] == v@[from as int] && s[1] == v@[from + 1]);
        assert(s == seq!['.', '.'] <==> (s[0] == '.' && s[1] == '.')) by {
            if s[0] == '.' && s[1] == '.' {
                assert(s =~= seq!['.', '.']);
            } else {
                assert(seq!['.', '.'][0] == '.' && seq!['.', '.'][1] == '.');
            }
        }
        !(v[from] == '.' && v[from + 1] == '.')
    } else {
        true
    }
}

/// Whether `c` can name a drive.
fn drive_letter(c: char) -> (r: bool)
    ensures
        r == is_drive_letter(c),
{
    ('a' <= c && c <= 'z') || ('A' <= c && c <= 'Z')
}

/// The length of the root of `v`.
fn root_len_of(style: PathStyle, v: &Vec<char>) -> (r: usize)
    ensures
        r == root_len(style, v@),
        r <= v.len(),
{
    let drive: usize = match style {
        PathStyle::Windows => if v.len() >= 2 && drive_letter(v[0]) && v[1] == ':' {
            2
        } else {
            0
        },
        PathStyle::Posix => 0,
    };
    let mut i: usize = drive;
    while i < v.len() && style.is_separator(v[i])
        invariant
            drive <= i <= v.len(),
            separators_from(style, v@, drive as int) == (i - drive) + separators_from(
                style,
                v@,
                i as int,
            ),
        decreases v.len() - i,
    {
        i += 1;
    }
    i
}

/// Where the last component of `v` begins and ends, and how long the root
/// of `v` is.
fn last_component_of(style: PathStyle, v: &Vec<char>) -> (r: (usize, usize, usize))
    ensures
        r.0 == last_start(style, v@),
        r.1 == body_end(style, v@),
        r.2 == root_len(style, v@),
        r.2 <= r.0 <= r.1 <= v.len(),
{
    let root = root_len_of(style, v);
    let trimmed = trimmed_len_of(style, v, v.len());
    proof {
        assert(v@.take(v.len() as int) =~= v@);
    }
    let end = if trimmed < root {
        root
    } else {
        trimmed
    };
    let start = name_start_of(style, v, end);
    let start = if start < root {
        root
    } else {
        start
    };
    (start, end, root)
}

/// The last component of `path`, where it is a name.
pub fn file_name_of(style: PathStyle, path: &str) -> (r: Option<String>)
    ensures
        match r {
            Some(n) => file_name(style, path@) == Some(n@),
            None => file_name(style, path@) is None,
        },
{
    let v = chars_of(path);
    let (start, end, root) = last_component_of(style, &v);
    if end > root && is_name_range(&v, start, end) {
        Some(String::from_str(path.substring_char(start, end)))
    } else {
        None
    }
}

/// `path` without its last component.
pub fn parent_of(style: PathStyle, path: &str) -> (r: Option<String>)
    ensures
        match r {
            Some(p) => parent(style, path@) == Some(p@),
            None => parent(style, path@) is None,
        },
{
    let v = chars_of(path);
    let (start, end, root) = last_component_of(style, &v);
    if end <= root {
        return None;
    }
    let stop = if start <= root {
        root
    } else {
        trimmed_len_of(style, &v, start)
    };
    proof {
        assert(v@.subrange(0, stop as int) =~= v@.take(stop as int));
    }
    Some(String::from_str(path.substring_char(0, stop)))
}

/// The parent of the parent of `path`.
pub fn grandparent_of(style: PathStyle, path: &str) -> (r: Option<String>)
    ensures
        match r {
            Some(p) => grandparent(style, path@) == Some(p@),
            None => grandparent(style, path@) is None,
        },
{
    match parent_of(style, path) {
        Some(p) => parent_of(style, p.as_str()),
        None => None,
    }
}

/// `part` below `base`.
pub fn join_paths(style: PathStyle, base: &str, part: &str) -> (r: String)
    ensures
        r@ == join(style, base@, part@),
{
    let b = chars_of(base);
    let p = chars_of(part);
    if p.len() > 0 && style.is_separator(p[0]) {
        String::from_str(part)
    } else if b.len() == 0 || style.is_separator(b[b.len() - 1]) {
        concat2(base, part)
    } else {
        concat3(base, style.separator_text(), part)
    }
}

/// Where a name without separators ends a path, the name starts right
/// behind the directory part.
pub proof fn lemma_name_start_after(style: PathStyle, dir: Seq<char>, name: Seq<char>)
    requires
        separator_free(style, name),
        dir.len() == 0 || style.separates(dir.last()),
    ensures
        name_start(style, dir + name) == dir.len(),
    decreases name.len(),
{
    let s = dir + name;
    if name.len() == 0 {
        assert(s =~= dir);
    } else {
        assert(s.last() == name.last());
        assert(s.drop_last() =~= dir + name.drop_last());
        lemma_name_start_after(style, dir, name.drop_last());
    }
}

/// A path that does not end with a separator has nothing to trim.
pub proof fn lemma_trimmed_whole(style: PathStyle, s: Seq<char>)
    requires
        s.len() == 0 || !style.separates(s.last()),
    ensures
        trimmed_len(style, s) == s.len(),
        s.take(trimmed_len(style, s)) == s,
{
    assert(s.take(s.len() as int) =~= s);
}

/// A character that is no separator and stands at or behind the drive
/// ends the root: the root is no longer than the index of that character.
pub proof fn lemma_root_ends_before(style: PathStyle, s: Seq<char>, j: int)
    requires
        drive_len(style, s) <= j < s.len(),
        !style.separates(s[j]),
    ensures
        root_len(style, s) <= j,
{
    lemma_separators_end_before(style, s, drive_len(style, s), j);
}

/// Separators in a row from `i` on do not reach a character that is none.
pub proof fn lemma_separators_end_before(style: PathStyle, s: Seq<char>, i: int, j: int)
    requires
        0 <= i <= j < s.len(),
        !style.separates(s[j]),
    ensures
        i + separators_from(style, s, i) <= j,
    decreases j - i,
{
    if i < j && style.separates(s[i]) {
        lemma_separators_end_before(style, s, i + 1, j);
    }
}

/// Separators in a row that end inside `a` are the same in `a + b`.
pub proof fn lemma_separators_of_prefix(
    style: PathStyle,
    a: Seq<char>,
    b: Seq<char>,
    i: int,
)
    requires
        0 <= i,
        i + separators_from(style, a, i) < a.len(),
    ensures
        separators_from(style, a + b, i) == separators_from(style, a, i),
    decreases a.len() - i,
{
    if i < a.len() && style.separates(a[i]) {
        assert((a + b)[i] == a[i]);
        lemma_separators_of_prefix(style, a, b, i + 1);
    } else {
        assert((a + b)[i] == a[i]);
    }
}

/// The root of `dir`, one separator and more is the root of `dir`, for a
/// `dir` that is more than a root.
pub proof fn lemma_root_of_longer_path(style: PathStyle, dir: Seq<char>, sep: char, rest: Seq<char>)
    requires
        style.separates(sep),
        root_len(style, dir) < dir.len(),
    ensures
        root_len(style, dir + seq![sep] + rest) == root_len(style, dir),
{
    let tail = seq![sep] + rest;
    let s = dir + tail;
    assert(s =~= dir + seq![sep] + rest);
    assert(s[0] == dir[0]);
    if dir.len() >= 2 {
        assert(s[1] == dir[1]);
    } else {
        assert(s[1] == sep);
    }
    assert(drive_len(style, s) == drive_len(style, dir));
    lemma_separators_of_prefix(style, dir, tail, drive_len(style, dir));
}

/// The shape `dir`, one separator, `name`: the name is the file name and
/// `dir` is the parent, for a `dir` that is more than a root and does not
/// end with a separator and a `name` without separators.
pub proof fn lemma_split_last(style: PathStyle, dir: Seq<char>, sep: char, name: Seq<char>)
    requires
        style.separates(sep),
        dir.len() > 0,
        !style.separates(dir.last()),
        root_len(style, dir) < dir.len(),
        name.len() > 0,
        separator_free(style, name),
    ensures
        parent(style, dir + seq![sep] + name) == Some(dir),
        is_name(name) ==> file_name(style, dir + seq![sep] + name) == Some(name),
        !is_name(name) ==> file_name(style, dir + seq![sep] + name) is None,
{
    let head = dir + seq![sep];
    let s = head + name;
    lemma_root_of_longer_path(style, dir, sep, name);
    assert(s.last() == name.last());
    lemma_trimmed_whole(style, s);
    lemma_name_start_after(style, head, name);
    assert(body_end(style, s) == s.len());
    assert(s.take(s.len() as int) =~= s);
    assert(last_start(style, s) == head.len());
    assert(s.subrange(head.len() as int, s.len() as int) =~= name);
    assert(s.take(head.len() as int) =~= head);
    assert(head.drop_last() =~= dir);
    lemma_trimmed_whole(style, dir);
    assert(trimmed_len(style, head) == dir.len());
    assert(s.take(dir.len() as int) =~= dir);
}

/// The shape `base`, one separator, `name`: the name is the file name,
/// whether `base` is a directory or a drive.
pub proof fn lemma_file_name_last(style: PathStyle, base: Seq<char>, sep: char, name: Seq<char>)
    requires
        style.separates(sep),
        base.len() > 0,
        is_name(name),
        separator_free(style, name),
    ensures
        file_name(style, base + seq![sep] + name) == Some(name),
        root_len(style, base + seq![sep] + name) <= base.len() + 1,
{
    let head = base + seq![sep];
    let s = head + name;
    let h = head.len() as int;
    assert(s.len() == h + name.len());
    assert(root_len(style, s) <= h) by {
        assert(s[h] == name[0]);
        assert(!style.separates(name[0]));
        lemma_root_ends_before(style, s, h);
    }
    assert(body_end(style, s) == s.len()) by {
        assert(s.last() == name.last());
        assert(!style.separates(name.last()));
        lemma_trimmed_whole(style, s);
    }
    assert(last_start(style, s) == h) by {
        assert(s.take(s.len() as int) =~= s);
        assert(head.last() == sep);
        lemma_name_start_after(style, head, name);
    }
    assert(s.subrange(h, s.len() as int) =~= name);
}

} // verus!
