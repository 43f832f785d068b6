//! Text helpers: comparing and joining strings, and taking chapter paths apart.
//!
//! A path here is a sequence of characters whose segments are separated by `/`.
//! The file name of a path is what follows its last `/` (all of it when it holds
//! none), and the extension of a file name is what follows its last `.`, unless
//! that `.` is the name's first character. A path that ends with `/`, `.` or
//! `..` names no file: it has no extension to replace.

use vstd::prelude::*;

verus! {

/// The parts put one after another, with `sep` between each two neighbours.
pub open spec fn joined(parts: Seq<Seq<char>>, sep: Seq<char>) -> Seq<char>
    decreases parts.len(),
{
    if parts.len() == 0 {
        Seq::empty()
    } else if parts.len() == 1 {
        parts[0]
    } else {
        joined(parts.drop_last(), sep) + sep + parts.last()
    }
}

/// The index of the last `c` in `s`, or -1 where `s` holds none.
pub open spec fn last_index_of(s: Seq<char>, c: char) -> int
    decreases s.len(),
{
    if s.len() == 0 {
        -1
    } else if s.last() == c {
        s.len() - 1
    } else {
        last_index_of(s.drop_last(), c)
    }
}

/// Whether `part` is a run of neighbouring characters of `whole`.
pub open spec fn occurs_in(part: Seq<char>, whole: Seq<char>) -> bool {
    exists|from: int, to: int|
        0 <= from <= to <= whole.len() && #[trigger] whole.subrange(from, to) == part
}

/// The index of the first of `keys` that equals `key`, or the number of keys
/// where none does.
pub open spec fn first_index_of(keys: Seq<Seq<char>>, key: Seq<char>) -> int
    decreases keys.len(),
{
    if keys.len() == 0 {
        0
    } else if keys.first() == key {
        0
    } else {
        1 + first_index_of(keys.drop_first(), key)
    }
}

/// Where the file name of `path` begins.
pub open spec fn name_start(path: Seq<char>) -> int {
    last_index_of(path, '/') + 1
}

/// The file name of `path`: its last segment.
pub open spec fn file_name_of(path: Seq<char>) -> Seq<char> {
    path.skip(name_start(path))
}

/// Where the extension of `path` is cut off: at the last `.` of the file name,
/// or at the end of the path where the file name has no extension.
pub open spec fn stem_end(path: Seq<char>) -> int {
    let dot = last_index_of(file_name_of(path), '.');
    if dot <= 0 {
        path.len() as int
    } else {
        name_start(path) + dot
    }
}

/// Whether the last segment of `path` names a file: it is not empty, and it
/// is neither `.` nor `..`.
pub open spec fn names_a_file(path: Seq<char>) -> bool {
    let name = file_name_of(path);
    name.len() > 0 && name != seq!['.'] && name != seq!['.', '.']
}

/// `path` with the extension of its file name replaced by `ext`, or with `ext`
/// added where the file name has none. A path that names no file has no such
/// form.
pub open spec fn with_extension_of(path: Seq<char>, ext: Seq<char>) -> Option<Seq<char>> {
    if names_a_file(path) {
        Some(path.take(stem_end(path)) + seq!['.'] + ext)
    } else {
        None
    }
}

/// `last_index_of` names the one index that holds `c` with no `c` after it.
pub proof fn lemma_last_index_of(s: Seq<char>, c: char)
    ensures
        -1 <= last_index_of(s, c) < s.len(),
        last_index_of(s, c) >= 0 ==> s[last_index_of(s, c)] == c,
        forall|i: int| last_index_of(s, c) < i < s.len() ==> s[i] != c,
    decreases s.len(),
{
    if s.len() > 0 && s.last() != c {
        lemma_last_index_of(s.drop_last(), c);
        assert forall|i: int| last_index_of(s, c) < i < s.len() implies s[i] != c by {
            if i < s.len() - 1 {
                assert(s.drop_last()[i] == s[i]);
            }
        }
    }
}

/// Appending one character moves the last index to it, or leaves it where it was.
pub proof fn lemma_last_index_of_push(s: Seq<char>, c: char, next: char)
    ensures
        last_index_of(s.push(next), c) == if next == c {
            s.len() as int
        } else {
            last_index_of(s, c)
        },
{
    assert(s.push(next).drop_last() == s);
}

/// The file name of a path is the path's end, holds no `/`, and follows a `/`
/// unless it is the whole path.
pub proof fn file_name_is_last_segment(path: Seq<char>)
    ensures
        0 <= name_start(path) <= path.len(),
        path == path.take(name_start(path)) + file_name_of(path),
        !file_name_of(path).contains('/'),
        name_start(path) > 0 ==> path[name_start(path) - 1] == '/',
        occurs_in(file_name_of(path), path),
{
    lemma_last_index_of(path, '/');
    let start = name_start(path);
    assert(path.subrange(start, path.len() as int) == file_name_of(path));
}

/// Replacing the extension keeps everything before the extension, the file
/// name's first character included, and ends the path with a `.` and the new
/// extension. What is cut off is the last `.` of the file name and what
/// follows it.
pub proof fn with_extension_keeps_the_stem(path: Seq<char>, ext: Seq<char>)
    requires
        names_a_file(path),
    ensures
        name_start(path) < stem_end(path) <= path.len(),
        with_extension_of(path, ext) matches Some(renamed) && {
            &&& renamed.len() == stem_end(path) + 1 + ext.len()
            &&& renamed.take(stem_end(path)) == path.take(stem_end(path))
            &&& renamed[stem_end(path)] == '.'
            &&& renamed.skip(stem_end(path) + 1) == ext
        },
        stem_end(path) < path.len() ==> path[stem_end(path)] == '.',
        forall|i: int|
            stem_end(path) < i < path.len() ==> path[i] != '.' && path[i] != '/',
{
    let name = file_name_of(path);
    let start = name_start(path);
    lemma_last_index_of(path, '/');
    lemma_last_index_of(name, '.');
    assert forall|i: int| stem_end(path) < i < path.len() implies path[i] != '.' && path[i]
        != '/' by {
        assert(name[i - start] == path[i]);
    }
    if stem_end(path) < path.len() {
        assert(name[stem_end(path) - start] == path[stem_end(path)]);
    }
}

/// `first_index_of` names an index that holds `key`, with no `key` before it.
pub proof fn lemma_first_index_of(keys: Seq<Seq<char>>, key: Seq<char>)
    ensures
        0 <= first_index_of(keys, key) <= keys.len(),
        first_index_of(keys, key) < keys.len() ==> keys[first_index_of(keys, key)] == key,
        forall|i: int| 0 <= i < first_index_of(keys, key) ==> keys[i] != key,
    decreases keys.len(),
{
    if keys.len() > 0 && keys.first() != key {
        let rest = keys.drop_first();
        lemma_first_index_of(rest, key);
        assert forall|i: int| 0 <= i < first_index_of(keys, key) implies keys[i] != key by {
            if i > 0 {
                assert(rest[i - 1] == keys[i]);
            }
        }
    }
}

/// An index that holds `key`, with no `key` before it, is the first index of `key`.
pub proof fn lemma_first_index_is(keys: Seq<Seq<char>>, key: Seq<char>, at: int)
    requires
        0 <= at <= keys.len(),
        at < keys.len() ==> keys[at] == key,
        forall|i: int| 0 <= i < at ==> keys[i] != key,
    ensures
        first_index_of(keys, key) == at,
{
    lemma_first_index_of(keys, key);
}

/// Whether two strings hold the same characters.
pub fn same_text(a: &str, b: &str) -> (same: bool)
    ensures
        same == (a@ == b@),
{
    a.to_owned() == b.to_owned()
}

/// The names joined by `sep`.
pub fn join_names(names: &Vec<String>, sep: &str) -> (text: String)
    ensures
        text@ == joined(names.deep_view(), sep@),
{
    let mut text = String::new();
    let mut i: usize = 0;
    while i < names.len()
        invariant
            i <= names.len(),
            text@ == joined(names.deep_view().take(i as int), sep@),
        decreases names.len() - i,
    {
        proof {
            let done = names.deep_view().take(i as int);
            let next = names.deep_view().take(i + 1);
            assert(next.drop_last() == done);
            assert(next.last() == names[i as int]@);
            assert(Seq::<char>::empty() + sep@ + names[i as int]@ == sep@ + names[i as int]@);
        }
        if i > 0 {
            text.append(sep);
        }
        text.append(names[i].as_str());
        i = i + 1;
    }
    proof {
        assert(names.deep_view().take(i as int) == names.deep_view());
    }
    text
}

/// Where the file name of `path` begins, and where its extension is cut off.
fn split_points(path: &str) -> (points: (usize, usize))
    ensures
        points.0 == name_start(path@),
        points.1 == stem_end(path@),
        points.0 <= points.1 <= path@.len(),
{
    let len: usize = path.unicode_len();
    let mut start: usize = 0;
    let mut dot: usize = 0;
    let mut has_dot: bool = false;
    let mut i: usize = 0;
    for c in it: path.chars()
        invariant
            i == it.index(),
            len == path@.len(),
            it.seq() == path@,
            start == name_start(path@.take(i as int)),
            start <= i,
            has_dot <==> last_index_of(path@.take(i as int).skip(start as int), '.') >= 0,
            has_dot ==> dot == start + last_index_of(
                path@.take(i as int).skip(start as int),
                '.',
            ),
            has_dot ==> start <= dot < i,
    {
        proof {
            let seen = path@.take(i as int);
            let next = path@.take(i + 1);
            assert(next == seen.push(c));
            lemma_last_index_of_push(seen, '/', c);
            if c == '/' {
                assert(next.skip(i + 1) == Seq::<char>::empty());
            } else {
                assert(next.skip(start as int) == seen.skip(start as int).push(c));
                lemma_last_index_of_push(seen.skip(start as int), '.', c);
            }
        }
        if c == '/' {
            start = i + 1;
            has_dot = false;
        } else if c == '.' {
            dot = i;
            has_dot = true;
        }
        i = i + 1;
    }
    proof {
        assert(path@.take(i as int) == path@);
    }
    if has_dot && dot > start {
        (start, dot)
    } else {
        (start, len)
    }
}

/// The file name of `path`.
pub fn file_name(path: &str) -> (name: String)
    ensures
        name@ == file_name_of(path@),
{
    let len: usize = path.unicode_len();
    let (start, _) = split_points(path);
    path.substring_char(start, len).to_owned()
}

/// `path` with the extension of its file name replaced by `ext`, or `None`
/// where the path names no file.
pub fn with_extension(path: &str, ext: &str) -> (renamed: Option<String>)
    ensures
        renamed.deep_view() == with_extension_of(path@, ext@),
{
    let len: usize = path.unicode_len();
    let (start, end) = split_points(path);
    let name = path.substring_char(start, len);
    proof {
        reveal_strlit(".");
        reveal_strlit("..");
        assert("."@ == seq!['.']);
        assert(".."@ == seq!['.', '.']);
    }
    if start == len || same_text(name, ".") || same_text(name, "..") {
        return None;
    }
    let mut renamed = path.substring_char(0, end).to_owned();
    renamed.append(".");
    renamed.append(ext);
    Some(renamed)
}

} // verus!
