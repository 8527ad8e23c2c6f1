//! A model of Unix-style path strings.
//!
//! A path is a sequence of characters in which `/` separates directories and
//! the last `.` of the file name introduces its extension. The spec functions
//! here define that grammar; the executable functions implement it and are
//! proved to match.

use vstd::prelude::*;

verus! {

/// Index of the last occurrence of `c` in `s`, or -1 if `c` does not occur.
pub open spec fn last_index_of(s: Seq<char>, c: char) -> int
    decreases s.len(),
{
    if s.len() == 0 {
        -1
    } else if s[s.len() - 1] == c {
        s.len() - 1
    } else {
        last_index_of(s.drop_last(), c)
    }
}

/// `last_index_of` finds an occurrence, and nothing occurs after it.
pub proof fn lemma_last_index_of(s: Seq<char>, c: char)
    ensures
        -1 <= last_index_of(s, c) < s.len(),
        last_index_of(s, c) >= 0 ==> s[last_index_of(s, c)] == c,
        forall|j: int| last_index_of(s, c) < j < s.len() ==> s[j] != c,
    decreases s.len(),
{
    if s.len() > 0 && s[s.len() - 1] != c {
        lemma_last_index_of(s.drop_last(), c);
        assert(forall|j: int|
            0 <= j < s.len() - 1 ==> s.drop_last()[j] == s[j]);
    }
}

/// A position of `c` with no later occurrence is the last index.
pub proof fn lemma_last_index_of_unique(s: Seq<char>, c: char, i: int)
    requires
        0 <= i < s.len(),
        s[i] == c,
        forall|j: int| i < j < s.len() ==> s[j] != c,
    ensures
        last_index_of(s, c) == i,
    decreases s.len(),
{
    if i < s.len() - 1 {
        lemma_last_index_of_unique(s.drop_last(), c, i);
        assert(forall|j: int| 0 <= j < s.len() - 1 ==> s.drop_last()[j] == s[j]);
    }
}

/// If `c` does not occur in `s`, no index holds it and the last index is -1.
pub proof fn lemma_last_index_of_absent(s: Seq<char>, c: char)
    requires
        !s.contains(c),
    ensures
        last_index_of(s, c) == -1,
        forall|j: int| 0 <= j < s.len() ==> s[j] != c,
{
    assert forall|j: int| 0 <= j < s.len() implies s[j] != c by {
        if s[j] == c {
            assert(s.contains(c));
        }
    }
    lemma_last_index_of(s, c);
    if last_index_of(s, c) >= 0 {
        assert(s[last_index_of(s, c)] == c);
    }
}

/// The part of `p` after the last `/`; the whole of `p` if it has no `/`.
pub open spec fn file_name_of(p: Seq<char>) -> Seq<char> {
    p.subrange(last_index_of(p, '/') + 1, p.len() as int)
}

/// The part of `p` up to and including the last `/`; empty if it has no `/`.
pub open spec fn dir_prefix_of(p: Seq<char>) -> Seq<char> {
    p.subrange(0, last_index_of(p, '/') + 1)
}

/// A path names a file only if something follows its last `/`.
pub open spec fn has_file_name(p: Seq<char>) -> bool {
    file_name_of(p).len() > 0
}

/// `p` is absolute when it starts at the root.
pub open spec fn is_absolute(p: Seq<char>) -> bool {
    p.len() > 0 && p[0] == '/'
}

/// The stem of a file name: everything before the last `.`, except that a
/// leading `.` (a hidden file) belongs to the stem and starts no extension.
pub open spec fn stem_of(f: Seq<char>) -> Seq<char> {
    let d = last_index_of(f, '.');
    if d <= 0 {
        f
    } else {
        f.subrange(0, d)
    }
}

/// The extension of a file name: everything after the last `.`, if that dot
/// is neither absent nor the first character.
pub open spec fn extension_of(f: Seq<char>) -> Option<Seq<char>> {
    let d = last_index_of(f, '.');
    if d <= 0 {
        None
    } else {
        Some(f.subrange(d + 1, f.len() as int))
    }
}

/// The file name with its extension replaced by `ext`.
pub open spec fn replace_extension(f: Seq<char>, ext: Seq<char>) -> Seq<char> {
    stem_of(f) + seq!['.'] + ext
}

/// `dir` extended by the entry `name`, inserting a separator when needed.
pub open spec fn join(dir: Seq<char>, name: Seq<char>) -> Seq<char> {
    if dir.len() == 0 {
        name
    } else if dir[dir.len() - 1] == '/' {
        dir + name
    } else {
        dir + seq!['/'] + name
    }
}

/// A file name holds no separator.
pub proof fn lemma_file_name_no_sep(p: Seq<char>)
    ensures
        !file_name_of(p).contains('/'),
{
    lemma_last_index_of(p, '/');
    let last = last_index_of(p, '/');
    if file_name_of(p).contains('/') {
        let k = choose|k: int|
            0 <= k < file_name_of(p).len() && file_name_of(p)[k] == '/';
        assert(p[last + 1 + k] == '/');
    }
}

/// Joining a separator-free entry name onto a directory leaves the entry
/// name as the file name of the result.
pub proof fn lemma_file_name_of_join(dir: Seq<char>, name: Seq<char>)
    requires
        !name.contains('/'),
    ensures
        file_name_of(join(dir, name)) == name,
{
    let p = join(dir, name);
    lemma_last_index_of_absent(name, '/');
    if dir.len() == 0 {
        lemma_last_index_of_absent(p, '/');
        assert(file_name_of(p) =~= name);
    } else if dir[dir.len() - 1] == '/' {
        assert(p == dir + name);
        assert(p[dir.len() - 1] == '/');
        lemma_last_index_of_unique(p, '/', dir.len() - 1);
        assert(file_name_of(p) =~= name);
    } else {
        assert(p == dir + seq!['/'] + name);
        assert(p[dir.len() as int] == '/');
        lemma_last_index_of_unique(p, '/', dir.len() as int);
        assert(file_name_of(p) =~= name);
    }
}

/// Replacing the extension of a non-empty file name with a dot-free `ext`
/// yields a name whose stem is unchanged and whose extension is `ext`.
pub proof fn lemma_replace_extension_parts(f: Seq<char>, ext: Seq<char>)
    requires
        f.len() > 0,
        !ext.contains('.'),
    ensures
        extension_of(replace_extension(f, ext)) == Some(ext),
        stem_of(replace_extension(f, ext)) == stem_of(f),
{
    let stem = stem_of(f);
    let g = replace_extension(f, ext);
    lemma_last_index_of(f, '.');
    lemma_last_index_of_absent(ext, '.');
    assert(stem.len() > 0);
    assert(g[stem.len() as int] == '.');
    assert forall|j: int| stem.len() < j < g.len() implies g[j] != '.' by {
        assert(g[j] == ext[j - stem.len() - 1]);
    }
    lemma_last_index_of_unique(g, '.', stem.len() as int);
    assert(g.subrange(stem.len() as int + 1, g.len() as int) =~= ext);
    assert(g.subrange(0, stem.len() as int) =~= stem);
}

/// Index of the last occurrence of `c` in `s`, if any.
pub fn rfind(s: &str, c: char) -> (r: Option<usize>)
    ensures
        match r {
            Some(i) => i == last_index_of(s@, c),
            None => last_index_of(s@, c) == -1,
        },
{
    let len = s.unicode_len();
    let mut i = len;
    proof {
        assert(s@.subrange(0, len as int) =~= s@);
    }
    while i > 0
        invariant
            i <= len,
            len == s@.len(),
            last_index_of(s@, c) == last_index_of(s@.subrange(0, i as int), c),
        decreases i,
    {
        let ch = s.get_char(i - 1);
        proof {
            assert(s@.subrange(0, i as int).last() == s@[i - 1]);
        }
        if ch == c {
            return Some(i - 1);
        }
        proof {
            assert(s@.subrange(0, i as int).drop_last() =~= s@.subrange(0, i - 1));
        }
        i = i - 1;
    }
    proof {
        assert(s@.subrange(0, 0) =~= Seq::<char>::empty());
    }
    None
}

/// Character-for-character equality of two strings.
pub fn str_eq(a: &str, b: &str) -> (r: bool)
    ensures
        r == (a@ == b@),
{
    let alen = a.unicode_len();
    let blen = b.unicode_len();
    if alen != blen {
        return false;
    }
    let mut i: usize = 0;
    while i < alen
        invariant
            alen == a@.len(),
            alen == b@.len(),
            i <= alen,
            forall|j: int| 0 <= j < i ==> a@[j] == b@[j],
        decreases alen - i,
    {
        if a.get_char(i) != b.get_char(i) {
            return false;
        }
        i = i + 1;
    }
    proof {
        assert(a@ =~= b@);
    }
    true
}

/// Whether `p` starts at the root.
pub fn is_absolute_path(p: &str) -> (r: bool)
    ensures
        r == is_absolute(p@),
{
    if p.unicode_len() == 0 {
        false
    } else {
        p.get_char(0) == '/'
    }
}

/// The part of `p` after the last `/`.
pub fn file_name_part(p: &str) -> (r: String)
    ensures
        r@ == file_name_of(p@),
{
    proof {
        lemma_last_index_of(p@, '/');
    }
    let len = p.unicode_len();
    let cut: usize = match rfind(p, '/') {
        Some(i) => i + 1,
        None => 0,
    };
    String::from_str(p.substring_char(cut, len))
}

/// The part of `p` up to and including the last `/`.
pub fn dir_prefix_part(p: &str) -> (r: String)
    ensures
        r@ == dir_prefix_of(p@),
{
    proof {
        lemma_last_index_of(p@, '/');
    }
    // Binds p@.len() to a machine word, so that `i + 1` below cannot overflow.
    let _len: usize = p.unicode_len();
    let cut: usize = match rfind(p, '/') {
        Some(i) => i + 1,
        None => 0,
    };
    String::from_str(p.substring_char(0, cut))
}

/// The extension of the file name `f`, if it has one.
pub fn extension_part(f: &str) -> (r: Option<String>)
    ensures
        match r {
            Some(e) => extension_of(f@) == Some(e@),
            None => extension_of(f@) is None,
        },
{
    proof {
        lemma_last_index_of(f@, '.');
    }
    let len = f.unicode_len();
    match rfind(f, '.') {
        Some(i) => {
            if i > 0 {
                Some(String::from_str(f.substring_char(i + 1, len)))
            } else {
                None
            }
        },
        None => None,
    }
}

/// The file name `f` with its extension replaced by `ext`.
pub fn replace_extension_part(f: &str, ext: &str) -> (r: String)
    ensures
        r@ == replace_extension(f@, ext@),
{
    proof {
        lemma_last_index_of(f@, '.');
    }
    let len = f.unicode_len();
    let stem_end: usize = match rfind(f, '.') {
        Some(i) => if i > 0 {
            i
        } else {
            len
        },
        None => len,
    };
    proof {
        if last_index_of(f@, '.') <= 0 {
            assert(f@.subrange(0, len as int) =~= f@);
        }
    }
    let mut r = String::from_str(f.substring_char(0, stem_end));
    r.append(".");
    r.append(ext);
    proof {
        reveal_strlit(".");
        assert((".")@ =~= seq!['.']);
    }
    r
}

/// `dir` extended by `name` with a separator inserted when needed.
pub fn join_path(dir: &str, name: &str) -> (r: String)
    ensures
        r@ == join(dir@, name@),
{
    let dlen = dir.unicode_len();
    if dlen == 0 {
        String::from_str(name)
    } else if dir.get_char(dlen - 1) == '/' {
        String::from_str(dir).concat(name)
    } else {
        let mut r = String::from_str(dir);
        r.append("/");
        r.append(name);
        proof {
            reveal_strlit("/");
            assert(("/")@ =~= seq!['/']);
        }
        r
    }
}

} // verus!
