//! The path resolver: where a converted file is written, and which
//! directory must exist before the write.
//!
//! With no output root, the destination is the source path with its
//! extension replaced. An absolute output root receives the file under its
//! own name. A relative output root is taken as a subdirectory of the
//! source's own directory — not of the working directory.

use vstd::prelude::*;
use crate::paths::{
    dir_prefix_of, dir_prefix_part, extension_of, file_name_of, file_name_part, has_file_name,
    is_absolute, is_absolute_path, join, join_path, lemma_file_name_no_sep,
    lemma_file_name_of_join, lemma_replace_extension_parts, replace_extension,
    replace_extension_part, stem_of,
};

verus! {

/// Why a source path cannot be resolved.
#[derive(Clone, Copy, Debug, PartialEq, Eq, Structural)]
pub enum ResolveError {
    /// The source path names no file: nothing follows its last `/`.
    NoFileName,
}

/// Where one conversion writes: the destination path, and the directory
/// that must be created (idempotently) first, when an output root is given.
#[derive(Debug)]
pub struct Resolved {
    /// Destination path of the converted file.
    pub dest: String,
    /// Directory to create before writing, if an output root is in play.
    pub dir_to_create: Option<String>,
}

/// The view of an optional borrowed path.
pub open spec fn opt_view(o: Option<&str>) -> Option<Seq<char>> {
    match o {
        Some(s) => Some(s@),
        None => None,
    }
}

/// The view of an optional owned path.
pub open spec fn opt_string_view(o: Option<String>) -> Option<Seq<char>> {
    match o {
        Some(s) => Some(s@),
        None => None,
    }
}

/// The directory the destination lies in, by mode.
pub open spec fn spec_output_dir(source: Seq<char>, output_root: Option<Seq<char>>) -> Seq<char> {
    match output_root {
        None => dir_prefix_of(source),
        Some(root) => if is_absolute(root) {
            root
        } else {
            join(dir_prefix_of(source), root)
        },
    }
}

/// The destination path: the output directory joined with the source's file
/// name, extension replaced by `target_ext`.
pub open spec fn spec_dest(
    source: Seq<char>,
    output_root: Option<Seq<char>>,
    target_ext: Seq<char>,
) -> Seq<char> {
    join(spec_output_dir(source, output_root), replace_extension(file_name_of(source), target_ext))
}

/// The directory a resolution asks to have created: none without an output
/// root, else the output directory itself.
pub open spec fn spec_dir_to_create(
    source: Seq<char>,
    output_root: Option<Seq<char>>,
) -> Option<Seq<char>> {
    match output_root {
        None => None,
        Some(_) => Some(spec_output_dir(source, output_root)),
    }
}

/// Directory creation is uniform across a batch: the directory to create
/// depends only on the output root and on the source's directory, never on
/// the source's file name. Two items that share an absolute output root, or
/// that lie in the same directory, ask for the very same directory, so
/// creating it for one item already covers the other.
pub proof fn lemma_dir_to_create_uniform(
    s1: Seq<char>,
    s2: Seq<char>,
    output_root: Option<Seq<char>>,
)
    requires
        (output_root is Some && is_absolute(output_root->0)) || dir_prefix_of(s1)
            == dir_prefix_of(s2),
    ensures
        spec_dir_to_create(s1, output_root) == spec_dir_to_create(s2, output_root),
{
}

/// The destination carries the target extension: for a dot-free, slash-free,
/// non-empty `target_ext`, the resolved destination's file name has exactly
/// `target_ext` as its extension and keeps the source file name's stem.
pub proof fn lemma_dest_extension(
    source: Seq<char>,
    output_root: Option<Seq<char>>,
    target_ext: Seq<char>,
)
    requires
        has_file_name(source),
        target_ext.len() > 0,
        !target_ext.contains('.'),
        !target_ext.contains('/'),
    ensures
        extension_of(file_name_of(spec_dest(source, output_root, target_ext))) == Some(
            target_ext,
        ),
        stem_of(file_name_of(spec_dest(source, output_root, target_ext))) == stem_of(
            file_name_of(source),
        ),
{
    let fname = file_name_of(source);
    let new_name = replace_extension(fname, target_ext);
    lemma_file_name_no_sep(source);
    lemma_replace_extension_parts(fname, target_ext);
    assert(!new_name.contains('/')) by {
        if new_name.contains('/') {
            let k = choose|k: int| 0 <= k < new_name.len() && new_name[k] == '/';
            let stem = stem_of(fname);
            if k < stem.len() {
                assert(fname.contains(new_name[k])) by {
                    crate::paths::lemma_last_index_of(fname, '.');
                    assert(stem[k] == fname[k]);
                }
            } else if k == stem.len() {
            } else {
                assert(target_ext[k - stem.len() - 1] == '/');
            }
        }
    }
    lemma_file_name_of_join(spec_output_dir(source, output_root), new_name);
}

/// A conversion to a different format never lands on its own source: when
/// the source's extension is not the target extension, the destination path
/// differs from the source path, so the source is left untouched.
pub proof fn lemma_dest_differs_from_source(
    source: Seq<char>,
    output_root: Option<Seq<char>>,
    target_ext: Seq<char>,
)
    requires
        has_file_name(source),
        target_ext.len() > 0,
        !target_ext.contains('.'),
        !target_ext.contains('/'),
        extension_of(file_name_of(source)) != Some(target_ext),
    ensures
        spec_dest(source, output_root, target_ext) != source,
{
    lemma_dest_extension(source, output_root, target_ext);
}

/// Computes the destination path for `source` converted to `target_ext`,
/// per mode; fails exactly when `source` names no file.
pub fn resolve(source: &str, output_root: Option<&str>, target_ext: &str) -> (r: Result<
    Resolved,
    ResolveError,
>)
    ensures
        match r {
            Ok(res) => has_file_name(source@) && res.dest@ == spec_dest(
                source@,
                opt_view(output_root),
                target_ext@,
            ) && opt_string_view(res.dir_to_create) == spec_dir_to_create(
                source@,
                opt_view(output_root),
            ),
            Err(e) => !has_file_name(source@) && e == ResolveError::NoFileName,
        },
{
    let fname = file_name_part(source);
    if fname.as_str().unicode_len() == 0 {
        return Err(ResolveError::NoFileName);
    }
    let new_name = replace_extension_part(fname.as_str(), target_ext);
    match output_root {
        None => {
            let prefix = dir_prefix_part(source);
            Ok(
                Resolved {
                    dest: join_path(prefix.as_str(), new_name.as_str()),
                    dir_to_create: None,
                },
            )
        },
        Some(root) => {
            if is_absolute_path(root) {
                let dest = join_path(root, new_name.as_str());
                Ok(Resolved { dest, dir_to_create: Some(String::from_str(root)) })
            } else {
                let prefix = dir_prefix_part(source);
                let out_dir = join_path(prefix.as_str(), root);
                let dest = join_path(out_dir.as_str(), new_name.as_str());
                Ok(Resolved { dest, dir_to_create: Some(out_dir) })
            }
        },
    }
}

} // verus!

