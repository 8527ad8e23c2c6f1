//! Candidate selection: which entries of a directory listing are eligible
//! for conversion.
//!
//! Selection works on a snapshot of the listing, taken once; entries added
//! or removed afterwards are not observed. Two policies exist: an explicit
//! source extension, or every recognized image file not already in the
//! target format.

use vstd::prelude::*;
use crate::paths::{extension_of, file_name_of, extension_part, file_name_part, str_eq};
use crate::registry::{is_supported_extension, is_image_format};

verus! {

/// One entry of a directory listing: the entry's name and whether it is a
/// regular file.
pub struct FileEntry {
    pub name: String,
    pub is_file: bool,
}

/// The extension of a listing entry's name.
pub open spec fn entry_extension(name: Seq<char>) -> Option<Seq<char>> {
    extension_of(file_name_of(name))
}

/// Explicit policy: a regular file whose extension equals `from` exactly.
/// No image-format validation applies; a non-image `from` merely selects
/// nothing.
pub open spec fn explicit_eligible(e: FileEntry, from: Seq<char>) -> bool {
    e.is_file && entry_extension(e.name@) == Some(from)
}

/// Any-eligible policy: a regular file whose extension is a supported image
/// extension other than the target `to`.
pub open spec fn any_eligible(e: FileEntry, to: Seq<char>) -> bool {
    e.is_file && match entry_extension(e.name@) {
        Some(x) => x != to && is_supported_extension(x),
        None => false,
    }
}

/// Whether `e` satisfies the explicit policy for `from`.
pub fn is_explicit_eligible(e: &FileEntry, from: &str) -> (r: bool)
    ensures
        r == explicit_eligible(*e, from@),
{
    if !e.is_file {
        return false;
    }
    let fname = file_name_part(e.name.as_str());
    match extension_part(fname.as_str()) {
        Some(x) => str_eq(x.as_str(), from),
        None => false,
    }
}

/// Whether `e` satisfies the any-eligible policy for target `to`.
pub fn is_any_eligible(e: &FileEntry, to: &str) -> (r: bool)
    ensures
        r == any_eligible(*e, to@),
{
    if !e.is_file {
        return false;
    }
    let fname = file_name_part(e.name.as_str());
    match extension_part(fname.as_str()) {
        Some(x) => !str_eq(x.as_str(), to) && is_image_format(Some(x.as_str())),
        None => false,
    }
}

/// Extending a filtered-and-named prefix of `s` by entry `i` appends the
/// entry's name exactly when the entry satisfies `pred`.
proof fn lemma_filter_names_step(
    s: Seq<FileEntry>,
    i: int,
    pred: spec_fn(FileEntry) -> bool,
    names0: Seq<Seq<char>>,
    names1: Seq<Seq<char>>,
)
    requires
        0 <= i < s.len(),
        names0 == s.subrange(0, i).filter(pred).map_values(|e: FileEntry| e.name@),
        names1 == if pred(s[i]) {
            names0.push(s[i].name@)
        } else {
            names0
        },
    ensures
        names1 == s.subrange(0, i + 1).filter(pred).map_values(|e: FileEntry| e.name@),
{
    let f = |e: FileEntry| e.name@;
    let sub0 = s.subrange(0, i);
    let sub1 = s.subrange(0, i + 1);
    assert(sub1.drop_last() =~= sub0);
    assert(sub1.last() == s[i]);
    reveal(Seq::filter);
    if pred(s[i]) {
        assert(sub1.filter(pred) == sub0.filter(pred).push(s[i]));
        assert(sub0.filter(pred).push(s[i]).map_values(f) =~= sub0.filter(pred).map_values(
            f,
        ).push(s[i].name@));
    } else {
        assert(sub1.filter(pred) == sub0.filter(pred));
    }
}

/// The names of the entries that the explicit policy selects, in listing
/// order: exactly the regular files whose extension equals `from`.
pub fn select_explicit(entries: &Vec<FileEntry>, from: &str) -> (r: Vec<String>)
    ensures
        r@.map_values(|s: String| s@) == entries@.filter(
            |e: FileEntry| explicit_eligible(e, from@),
        ).map_values(|e: FileEntry| e.name@),
{
    let mut r: Vec<String> = Vec::new();
    let n = entries.len();
    let mut i: usize = 0;
    proof {
        assert(entries@.subrange(0, 0) =~= Seq::<FileEntry>::empty());
        reveal(Seq::filter);
    }
    while i < n
        invariant
            i <= n,
            n == entries@.len(),
            r@.map_values(|s: String| s@) == entries@.subrange(0, i as int).filter(
                |e: FileEntry| explicit_eligible(e, from@),
            ).map_values(|e: FileEntry| e.name@),
        decreases n - i,
    {
        let ghost pred = |e: FileEntry| explicit_eligible(e, from@);
        let ghost r0 = r@;
        let e = &entries[i];
        if is_explicit_eligible(e, from) {
            r.push(e.name.clone());
            proof {
                assert(r@.map_values(|s: String| s@) =~= r0.map_values(
                    |s: String| s@,
                ).push(entries@[i as int].name@));
            }
        }
        proof {
            lemma_filter_names_step(
                entries@,
                i as int,
                pred,
                r0.map_values(|s: String| s@),
                r@.map_values(|s: String| s@),
            );
        }
        i = i + 1;
    }
    proof {
        assert(entries@.subrange(0, n as int) =~= entries@);
    }
    r
}

/// The names of the entries that the any-eligible policy selects, in listing
/// order: exactly the regular image files not already in the target format.
pub fn select_any_eligible(entries: &Vec<FileEntry>, to: &str) -> (r: Vec<String>)
    ensures
        r@.map_values(|s: String| s@) == entries@.filter(
            |e: FileEntry| any_eligible(e, to@),
        ).map_values(|e: FileEntry| e.name@),
{
    let mut r: Vec<String> = Vec::new();
    let n = entries.len();
    let mut i: usize = 0;
    proof {
        assert(entries@.subrange(0, 0) =~= Seq::<FileEntry>::empty());
        reveal(Seq::filter);
    }
    while i < n
        invariant
            i <= n,
            n == entries@.len(),
            r@.map_values(|s: String| s@) == entries@.subrange(0, i as int).filter(
                |e: FileEntry| any_eligible(e, to@),
            ).map_values(|e: FileEntry| e.name@),
        decreases n - i,
    {
        let ghost pred = |e: FileEntry| any_eligible(e, to@);
        let ghost r0 = r@;
        let e = &entries[i];
        if is_any_eligible(e, to) {
            r.push(e.name.clone());
            proof {
                assert(r@.map_values(|s: String| s@) =~= r0.map_values(
                    |s: String| s@,
                ).push(entries@[i as int].name@));
            }
        }
        proof {
            lemma_filter_names_step(
                entries@,
                i as int,
                pred,
                r0.map_values(|s: String| s@),
                r@.map_values(|s: String| s@),
            );
        }
        i = i + 1;
    }
    proof {
        assert(entries@.subrange(0, n as int) =~= entries@);
    }
    r
}

} // verus!
