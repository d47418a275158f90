//! Discoverer: turns a directory tree into a flat queue of resize candidates.
//!
//! A directory listing is plain data here: [`Dir`] holds the full paths of the
//! regular files of one directory and, nested, the listings of its
//! subdirectories. The discovery spec [`discovered`] keeps exactly the file
//! paths with an allowed image extension, descending into subdirectories only
//! when recursion is enabled; [`lemma_discovery_exact`] pins how often each
//! path can appear in the result.

use vstd::prelude::*;
use crate::pathfilter::is_image_path;

verus! {

/// One directory of a filesystem tree, read into plain data.
///
/// `files` holds the full paths of the regular-file entries of the directory;
/// `subdirs` holds its subdirectories, read the same way.
pub struct Dir {
    /// Full paths of the regular files directly inside this directory.
    pub files: Vec<String>,
    /// The subdirectories directly inside this directory.
    pub subdirs: Vec<Dir>,
}

/// The file paths of `files` that carry an allowed image extension, in order.
pub open spec fn matching(files: Seq<Seq<char>>) -> Seq<Seq<char>>
    decreases files.len(),
{
    if files.len() == 0 {
        Seq::empty()
    } else {
        (if is_image_path(files[0]) {
            seq![files[0]]
        } else {
            Seq::empty()
        }) + matching(files.drop_first())
    }
}

/// What discovery collects from `d`: the matching files of the directory
/// itself and, only when `recursive` is enabled, of every directory below it.
pub open spec fn discovered(d: Dir, recursive: bool) -> Seq<Seq<char>>
    decreases d,
{
    matching(d.files.deep_view()) + if recursive {
        discovered_below(d.subdirs@)
    } else {
        Seq::empty()
    }
}

/// What discovery collects from a row of subdirectories, in order.
pub open spec fn discovered_below(ds: Seq<Dir>) -> Seq<Seq<char>>
    decreases ds,
{
    if ds.len() == 0 {
        Seq::empty()
    } else {
        discovered(ds[0], true) + discovered_below(ds.drop_first())
    }
}

/// Every file path anywhere in the tree under `d`, matching or not.
pub open spec fn all_files(d: Dir) -> Seq<Seq<char>>
    decreases d,
{
    d.files.deep_view() + all_files_below(d.subdirs@)
}

/// Every file path anywhere under a row of subdirectories.
pub open spec fn all_files_below(ds: Seq<Dir>) -> Seq<Seq<char>>
    decreases ds,
{
    if ds.len() == 0 {
        Seq::empty()
    } else {
        all_files(ds[0]) + all_files_below(ds.drop_first())
    }
}

/// How often `f` occurs in `s`.
pub open spec fn occurrences(s: Seq<Seq<char>>, f: Seq<char>) -> nat
    decreases s.len(),
{
    if s.len() == 0 {
        0
    } else {
        (if s[0] == f {
            1nat
        } else {
            0nat
        }) + occurrences(s.drop_first(), f)
    }
}

/// Occurrence counts add up over concatenation.
pub proof fn lemma_occurrences_add(a: Seq<Seq<char>>, b: Seq<Seq<char>>, f: Seq<char>)
    ensures
        occurrences(a + b, f) == occurrences(a, f) + occurrences(b, f),
    decreases a.len(),
{
    if a.len() == 0 {
        assert(a + b =~= b);
    } else {
        assert((a + b).drop_first() =~= a.drop_first() + b);
        assert((a + b)[0] == a[0]);
        lemma_occurrences_add(a.drop_first(), b, f);
    }
}

/// A path occurs in a listing exactly when its count there is positive.
pub proof fn lemma_occurrences_contains(s: Seq<Seq<char>>, f: Seq<char>)
    ensures
        occurrences(s, f) > 0 <==> s.contains(f),
    decreases s.len(),
{
    if s.len() > 0 {
        lemma_occurrences_contains(s.drop_first(), f);
        if s.contains(f) {
            let i = choose|i: int| 0 <= i < s.len() && s[i] == f;
            if i > 0 {
                assert(s.drop_first()[i - 1] == f);
                assert(s.drop_first().contains(f));
            }
        }
        if s.drop_first().contains(f) {
            let i = choose|i: int| 0 <= i < s.drop_first().len() && s.drop_first()[i] == f;
            assert(s[i + 1] == f);
        }
    }
}

/// Filtering by extension keeps every occurrence of a matching path and
/// drops every occurrence of any other path.
pub proof fn lemma_matching_occurrences(files: Seq<Seq<char>>, f: Seq<char>)
    ensures
        occurrences(matching(files), f) == if is_image_path(f) {
            occurrences(files, f)
        } else {
            0
        },
    decreases files.len(),
{
    if files.len() > 0 {
        lemma_matching_occurrences(files.drop_first(), f);
        let head = if is_image_path(files[0]) {
            seq![files[0]]
        } else {
            Seq::<Seq<char>>::empty()
        };
        lemma_occurrences_add(head, matching(files.drop_first()), f);
        if is_image_path(files[0]) {
            assert(head.len() == 1);
            assert(head[0] == files[0]);
            assert(head.drop_first() =~= Seq::<Seq<char>>::empty());
            assert(occurrences(Seq::<Seq<char>>::empty(), f) == 0);
            assert(occurrences(head.drop_first(), f) == 0);
            assert(occurrences(head, f) == (if files[0] == f {
                1nat
            } else {
                0nat
            }));
        } else {
            assert(occurrences(head, f) == 0);
        }
        assert(occurrences(files, f) == (if files[0] == f {
            1nat
        } else {
            0nat
        }) + occurrences(files.drop_first(), f));
    }
}

/// Recursive discovery visits each matching file exactly as often as it
/// occurs in the tree, and any other path not at all. In particular, in a
/// tree whose file paths are distinct, every matching file at every depth is
/// collected exactly once.
pub proof fn lemma_discovery_exact(d: Dir, f: Seq<char>)
    ensures
        occurrences(discovered(d, true), f) == if is_image_path(f) {
            occurrences(all_files(d), f)
        } else {
            0
        },
    decreases d,
{
    lemma_matching_occurrences(d.files.deep_view(), f);
    lemma_occurrences_add(matching(d.files.deep_view()), discovered_below(d.subdirs@), f);
    lemma_occurrences_add(d.files.deep_view(), all_files_below(d.subdirs@), f);
    lemma_discovery_below_exact(d.subdirs@, f);
}

proof fn lemma_discovery_below_exact(ds: Seq<Dir>, f: Seq<char>)
    ensures
        occurrences(discovered_below(ds), f) == if is_image_path(f) {
            occurrences(all_files_below(ds), f)
        } else {
            0
        },
    decreases ds,
{
    if ds.len() > 0 {
        lemma_discovery_exact(ds[0], f);
        lemma_discovery_below_exact(ds.drop_first(), f);
        lemma_occurrences_add(discovered(ds[0], true), discovered_below(ds.drop_first()), f);
        lemma_occurrences_add(all_files(ds[0]), all_files_below(ds.drop_first()), f);
    }
}

/// Recursive discovery over a tree with distinct file paths collects every
/// matching file, at every depth, exactly once.
pub proof fn lemma_recursive_visits_once(d: Dir, f: Seq<char>)
    requires
        is_image_path(f),
        occurrences(all_files(d), f) == 1,
    ensures
        occurrences(discovered(d, true), f) == 1,
{
    lemma_discovery_exact(d, f);
}

/// Recursive discovery misses nothing: every file with an allowed extension,
/// at whatever depth it sits in the tree, is collected.
pub proof fn lemma_recursive_finds_every_image(d: Dir, f: Seq<char>)
    requires
        is_image_path(f),
        all_files(d).contains(f),
    ensures
        discovered(d, true).contains(f),
{
    lemma_occurrences_contains(all_files(d), f);
    lemma_discovery_exact(d, f);
    lemma_occurrences_contains(discovered(d, true), f);
}

/// A path whose extension is outside the allow-list is never collected,
/// recursion or not: such files are never handed on to be opened or changed.
pub proof fn lemma_only_images_discovered(d: Dir, recursive: bool, f: Seq<char>)
    requires
        !is_image_path(f),
    ensures
        !discovered(d, recursive).contains(f),
{
    if recursive {
        lemma_discovery_exact(d, f);
    } else {
        lemma_matching_occurrences(d.files.deep_view(), f);
        assert(discovered(d, false) =~= matching(d.files.deep_view()));
    }
    lemma_occurrences_contains(discovered(d, recursive), f);
}

/// Non-recursive discovery never reaches past the root listing: a path that
/// is not a file entry of the root directory itself is never collected.
pub proof fn lemma_nonrecursive_stays_at_root(d: Dir, f: Seq<char>)
    requires
        !d.files.deep_view().contains(f),
    ensures
        !discovered(d, false).contains(f),
{
    lemma_matching_occurrences(d.files.deep_view(), f);
    lemma_occurrences_contains(d.files.deep_view(), f);
    assert(discovered(d, false) =~= matching(d.files.deep_view()));
    lemma_occurrences_contains(discovered(d, false), f);
}

} // verus!
