//! Path filter: classifies filesystem entries by name and kind.
//!
//! A regular file is a resize candidate exactly when its name carries one of
//! the allowed extensions `png`, `jpg`, `jpeg` (lowercase, exact match); a
//! directory is a traversal candidate exactly when recursion is enabled.

use vstd::prelude::*;
use crate::codec::ImgFormat;

verus! {

/// Index of the rightmost `'.'` in `name`, or `-1` when there is none.
pub open spec fn rightmost_dot(name: Seq<char>) -> int
    decreases name.len(),
{
    if name.len() == 0 {
        -1
    } else if name.last() == '.' {
        name.len() - 1
    } else {
        rightmost_dot(name.drop_last())
    }
}

/// The extension of a path: the characters after the rightmost dot of the
/// final component. A name without a dot has no extension, and neither does a
/// name whose final component starts with its only dot (a hidden file).
pub open spec fn extension_of(name: Seq<char>) -> Option<Seq<char>> {
    let i = rightmost_dot(name);
    if i <= 0 {
        None
    } else if name[i - 1] == '/' {
        None
    } else {
        Some(name.subrange(i + 1, name.len() as int))
    }
}

/// The fixed allow-list: `png`, `jpg` and `jpeg`, lowercase only.
pub open spec fn is_allowed_extension(ext: Seq<char>) -> bool {
    ext == "png"@ || ext == "jpg"@ || ext == "jpeg"@
}

/// The container format belonging to an allowed extension.
pub open spec fn format_for_extension(ext: Seq<char>) -> Option<ImgFormat> {
    if ext == "png"@ {
        Some(ImgFormat::Png)
    } else if ext == "jpg"@ || ext == "jpeg"@ {
        Some(ImgFormat::Jpeg)
    } else {
        None
    }
}

/// The container format of a candidate, read off its file name; `None` for a
/// name outside the allow-list.
pub open spec fn format_of(name: Seq<char>) -> Option<ImgFormat> {
    match extension_of(name) {
        Some(e) => format_for_extension(e),
        None => None,
    }
}

/// A file name that carries an allowed image extension.
pub open spec fn is_image_path(name: Seq<char>) -> bool {
    match extension_of(name) {
        Some(e) => is_allowed_extension(e),
        None => false,
    }
}

/// Every candidate image name determines its container format.
pub proof fn lemma_image_path_has_format(name: Seq<char>)
    ensures
        is_image_path(name) <==> format_of(name) is Some,
{
}

/// What the discoverer does with one filesystem entry.
#[derive(Clone, Copy, Debug, PartialEq, Eq, Structural)]
pub enum Classification {
    /// A regular file with an allowed extension: a resize candidate.
    Resize,
    /// A directory while recursion is enabled: to be expanded.
    Descend,
    /// Anything else: ignored.
    Skip,
}

/// [`classify`], as a pure function on the name's characters.
pub open spec fn classify_spec(name: Seq<char>, is_dir: bool, recursive: bool) -> Classification {
    if is_dir {
        if recursive {
            Classification::Descend
        } else {
            Classification::Skip
        }
    } else if is_image_path(name) {
        Classification::Resize
    } else {
        Classification::Skip
    }
}

proof fn lemma_rightmost_dot_at(name: Seq<char>, i: int)
    requires
        0 <= i < name.len(),
        name[i] == '.',
        forall|j: int| i < j < name.len() ==> name[j] != '.',
    ensures
        rightmost_dot(name) == i,
    decreases name.len(),
{
    if i < name.len() - 1 {
        assert(name.last() != '.');
        lemma_rightmost_dot_at(name.drop_last(), i);
    }
}

proof fn lemma_rightmost_dot_none(name: Seq<char>)
    requires
        forall|j: int| 0 <= j < name.len() ==> name[j] != '.',
    ensures
        rightmost_dot(name) == -1,
    decreases name.len(),
{
    if name.len() > 0 {
        lemma_rightmost_dot_none(name.drop_last());
    }
}

/// The extension of `name` as a slice of it, where there is one.
fn extension_slice<'a>(name: &'a str) -> (r: Option<&'a str>)
    ensures
        r matches Some(e) ==> extension_of(name@) == Some(e@),
        r is None ==> extension_of(name@) is None,
{
    let n = name.unicode_len();
    let mut i: usize = n;
    while i > 0
        invariant
            i <= n,
            n == name@.len(),
            forall|j: int| i <= j < name@.len() ==> name@[j] != '.',
        decreases i,
    {
        i = i - 1;
        if name.get_char(i) == '.' {
            proof {
                lemma_rightmost_dot_at(name@, i as int);
            }
            if i == 0 {
                return None;
            }
            if name.get_char(i - 1) == '/' {
                return None;
            }
            return Some(name.substring_char(i + 1, n));
        }
    }
    proof {
        lemma_rightmost_dot_none(name@);
    }
    None
}

/// The container format belonging to `ext`, or `None` for an extension
/// outside the allow-list.
fn extension_format(ext: &str) -> (r: Option<ImgFormat>)
    ensures
        r == format_for_extension(ext@),
{
    proof {
        reveal_strlit("png");
        reveal_strlit("jpg");
        reveal_strlit("jpeg");
    }
    let l = ext.unicode_len();
    if l == 3 {
        let c0 = ext.get_char(0);
        let c1 = ext.get_char(1);
        let c2 = ext.get_char(2);
        if c0 == 'p' && c1 == 'n' && c2 == 'g' {
            proof {
                assert(ext@ =~= "png"@);
            }
            Some(ImgFormat::Png)
        } else if c0 == 'j' && c1 == 'p' && c2 == 'g' {
            proof {
                assert(ext@ =~= "jpg"@);
            }
            Some(ImgFormat::Jpeg)
        } else {
            None
        }
    } else if l == 4 {
        let c0 = ext.get_char(0);
        let c1 = ext.get_char(1);
        let c2 = ext.get_char(2);
        let c3 = ext.get_char(3);
        if c0 == 'j' && c1 == 'p' && c2 == 'e' && c3 == 'g' {
            proof {
                assert(ext@ =~= "jpeg"@);
            }
            Some(ImgFormat::Jpeg)
        } else {
            None
        }
    } else {
        None
    }
}

/// The container format of a candidate, read off its file name, so that a
/// resized image can be written back in its original format.
pub fn format_for_name(name: &str) -> (r: Option<ImgFormat>)
    ensures
        r == format_of(name@),
{
    match extension_slice(name) {
        Some(ext) => extension_format(ext),
        None => None,
    }
}

/// Whether `name` carries an allowed image extension.
pub fn has_image_extension(name: &str) -> (b: bool)
    ensures
        b == is_image_path(name@),
{
    format_for_name(name).is_some()
}

/// Classifies one filesystem entry: a regular file with an allowed extension
/// is a resize candidate, a directory is expanded only while recursion is
/// enabled, and everything else is skipped. A pure predicate with no failure
/// modes.
pub fn classify(name: &str, is_dir: bool, recursive: bool) -> (c: Classification)
    ensures
        c == classify_spec(name@, is_dir, recursive),
{
    if is_dir {
        if recursive {
            Classification::Descend
        } else {
            Classification::Skip
        }
    } else if has_image_extension(name) {
        Classification::Resize
    } else {
        Classification::Skip
    }
}

} // verus!
