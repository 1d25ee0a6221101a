//! Finding the project bundle in a directory listing.
//!
//! The build and deploy subcommands run from inside a project tree: they
//! look for a project bundle — a directory whose name ends in the
//! project suffix — first in the working directory, then in its parent,
//! and take the bundle's stem as the default scheme. Reading the
//! directories is the driver's job; deciding which entry is the project,
//! and what its stem is, is verified here.

use vstd::prelude::*;
use vstd::string::*;

verus! {

/// A directory entry as the driver reports it: the entry's file name and
/// whether the entry is a directory.
pub struct DirEntryInfo {
    pub name: String,
    pub is_dir: bool,
}

/// Spec-level image of a [`DirEntryInfo`].
#[verifier::ext_equal]
pub struct DirEntryModel {
    pub name: Seq<char>,
    pub is_dir: bool,
}

impl View for DirEntryInfo {
    type V = DirEntryModel;

    open spec fn view(&self) -> DirEntryModel {
        DirEntryModel { name: self.name@, is_dir: self.is_dir }
    }
}

impl DeepView for DirEntryInfo {
    type V = DirEntryModel;

    open spec fn deep_view(&self) -> DirEntryModel {
        self.view()
    }
}

/// The file-name suffix of a project bundle directory.
pub open spec fn project_suffix() -> Seq<char> {
    ".xcodeproj"@
}

/// Whether `name` names a project bundle: a non-empty stem followed by
/// the project suffix. A name that is nothing but the suffix is a hidden
/// file without an extension and does not count.
pub open spec fn is_project_name(name: Seq<char>) -> bool {
    &&& name.len() > project_suffix().len()
    &&& name.subrange(name.len() - project_suffix().len(), name.len() as int) == project_suffix()
}

/// The stem of a project bundle name: the part before the suffix.
pub open spec fn project_stem(name: Seq<char>) -> Seq<char> {
    name.subrange(0, name.len() - project_suffix().len())
}

/// Whether a directory entry is a project bundle: a directory whose name
/// carries the project suffix.
pub open spec fn entry_is_project(e: DirEntryModel) -> bool {
    e.is_dir && is_project_name(e.name)
}

/// The stem of a project bundle name: `Some` of the part before the
/// suffix when `name` names a project bundle, `None` otherwise.
pub fn xcodeproj_stem(name: &str) -> (r: Option<String>)
    ensures
        match r {
            Some(stem) => is_project_name(name@) && stem@ == project_stem(name@),
            None => !is_project_name(name@),
        },
{
    proof {
        reveal_strlit(".xcodeproj");
    }
    let n = name.unicode_len();
    if n <= 10 {
        return None;
    }
    let suffix = name.substring_char(n - 10, n);
    if String::from_str(suffix) == String::from_str(".xcodeproj") {
        let stem = name.substring_char(0, n - 10);
        Some(String::from_str(stem))
    } else {
        None
    }
}

/// Scans a directory listing, in order, for the first project bundle,
/// and returns the default scheme: the bundle's stem.
pub fn find_project_entry(entries: &Vec<DirEntryInfo>) -> (r: Option<String>)
    ensures
        match r {
            Some(stem) => exists|i: int|
                0 <= i < entries.deep_view().len() && #[trigger] entry_is_project(
                    entries.deep_view()[i],
                ) && (forall|j: int|
                    0 <= j < i ==> !entry_is_project(#[trigger] entries.deep_view()[j]))
                    && stem@ == project_stem(entries.deep_view()[i].name),
            None => forall|i: int|
                0 <= i < entries.deep_view().len() ==> !entry_is_project(
                    #[trigger] entries.deep_view()[i],
                ),
        },
{
    let mut i: usize = 0;
    while i < entries.len()
        invariant
            i <= entries.len(),
            forall|j: int|
                0 <= j < i ==> !entry_is_project(#[trigger] entries.deep_view()[j]),
        decreases entries.len() - i,
    {
        let e = &entries[i];
        if e.is_dir {
            let stem = xcodeproj_stem(e.name.as_str());
            match stem {
                Some(stem) => {
                    proof {
                        assert(entry_is_project(entries.deep_view()[i as int]));
                    }
                    return Some(stem);
                },
                None => {},
            }
        }
        i = i + 1;
    }
    None
}

} // verus!
