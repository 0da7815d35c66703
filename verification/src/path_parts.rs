//! The parts of a file path that the duplicate-file records keep.
use vstd::prelude::*;
use crate::validate::option_view;
use crate::worker::{join_path, parent_of, path_join, path_parent};

verus! {

/// A path taken apart.
#[derive(Debug, Clone)]
pub struct PathParts {
    pub drive_letter: Option<String>,
    pub path_without_drive: String,
    pub base_filename: String,
    pub extension: Option<String>,
    pub parent_dir: String,
}

/// The drive letter of a path's disk prefix (`C:` or `\\?\C:`), as
/// `Path::components` reads it.
pub uninterp spec fn path_drive_letter(path: Seq<char>) -> Option<Seq<char>>;

/// The drive letter of the prefix component of a path, when the path
/// starts with a disk prefix.
#[verifier::external_body]
fn drive_letter_of(path: &str) -> (r: Option<String>)
    ensures
        option_view(r) == path_drive_letter(path@),
{
    match std::path::Path::new(path).components().next() {
        Some(std::path::Component::Prefix(prefix)) => match prefix.kind() {
            std::path::Prefix::Disk(letter) => Some((letter as char).to_string()),
            std::path::Prefix::VerbatimDisk(letter) => Some((letter as char).to_string()),
            _ => None,
        },
        _ => None,
    }
}

/// What `Path::strip_prefix` gives: the path with `base` removed from its
/// front, or `None` when `base` is not a prefix of it.
pub uninterp spec fn path_strip_prefix(path: Seq<char>, base: Seq<char>) -> Option<Seq<char>>;

/// `Path::strip_prefix` of paths held as text.
#[verifier::external_body]
fn strip_prefix_of(path: &str, base: &str) -> (r: Option<String>)
    ensures
        option_view(r) == path_strip_prefix(path@, base@),
{
    match std::path::Path::new(path).strip_prefix(base) {
        Ok(p) => Some(p.to_string_lossy().into_owned()),
        Err(_) => None,
    }
}

/// What `Path::file_name` gives: the last component when it is a name.
pub uninterp spec fn path_file_name(path: Seq<char>) -> Option<Seq<char>>;

/// `Path::file_name` of a path held as text.
#[verifier::external_body]
fn file_name_of(path: &str) -> (r: Option<String>)
    ensures
        option_view(r) == path_file_name(path@),
{
    match std::path::Path::new(path).file_name() {
        Some(name) => Some(name.to_string_lossy().into_owned()),
        None => None,
    }
}

/// What `Path::extension` gives: the part of the file name after its last
/// dot, when there is one past the first character.
pub uninterp spec fn path_extension(path: Seq<char>) -> Option<Seq<char>>;

/// `Path::extension` of a path held as text.
#[verifier::external_body]
fn extension_of(path: &str) -> (r: Option<String>)
    ensures
        option_view(r) == path_extension(path@),
{
    match std::path::Path::new(path).extension() {
        Some(ext) => Some(ext.to_string_lossy().into_owned()),
        None => None,
    }
}

/// The path without its drive: for a path on a drive (`C:\\Users\\a.txt`)
/// its components after the drive prefix joined again (`\\Users\\a.txt`);
/// otherwise the path as `Path::strip_prefix` of an empty base gives it.
pub open spec fn without_drive(path: Seq<char>) -> Seq<char> {
    match path_drive_letter(path) {
        Some(_) => joined_components(skip_prefixes(path_components(path))),
        None => match path_strip_prefix(path, Seq::empty()) {
            Some(rest) => rest,
            None => path,
        },
    }
}

/// Takes a path apart into drive letter, the path without it, file name,
/// extension and parent directory. The path must have a parent (a root or
/// an empty path has none).
pub fn extract_path_components(path: &str) -> (r: PathParts)
    requires
        path_parent(path@) is Some,
    ensures
        option_view(r.drive_letter) == path_drive_letter(path@),
        r.path_without_drive@ == without_drive(path@),
        r.base_filename@ == match path_file_name(path@) {
            Some(n) => n,
            None => Seq::empty(),
        },
        option_view(r.extension) == path_extension(path@),
        Some(r.parent_dir@) == path_parent(path@),
{
    proof {
        reveal_strlit("");
        assert(""@ =~= Seq::<char>::empty());
    }
    let drive_letter = drive_letter_of(path);
    let path_without_drive = match &drive_letter {
        Some(_) => get_path_without_drive_letter(path),
        None => match strip_prefix_of(path, "") {
            Some(rest) => rest,
            None => path.to_owned(),
        },
    };
    let base_filename = match file_name_of(path) {
        Some(n) => n,
        None => String::new(),
    };
    let extension = extension_of(path);
    let parent_dir = match parent_of(path) {
        Some(p) => p,
        None => String::new(),
    };
    PathParts { drive_letter, path_without_drive, base_filename, extension, parent_dir }
}

/// The parts of a path, or `None` when it has no parent directory.
pub fn try_extract_path_components(path: &str) -> (r: Option<PathParts>)
    ensures
        r is Some <==> path_parent(path@) is Some,
        r matches Some(parts) ==> Some(parts.parent_dir@) == path_parent(path@) && parts.path_without_drive@
            == without_drive(path@),
{
    match parent_of(path) {
        Some(_) => Some(extract_path_components(path)),
        None => None,
    }
}

/// What `Path::components` gives for a path: for each component, whether it
/// is a Windows prefix (`C:`, `\\?\C:`, a UNC share), and its text.
pub uninterp spec fn path_components(path: Seq<char>) -> Seq<(bool, Seq<char>)>;

/// `Path::components` of a path held as text.
#[verifier::external_body]
pub(crate) fn components_of(path: &str) -> (r: Vec<(bool, String)>)
    ensures
        r@.map_values(|c: (bool, String)| (c.0, c.1@)) == path_components(path@),
{
    let mut out = Vec::new();
    for c in std::path::Path::new(path).components() {
        let is_prefix = matches!(c, std::path::Component::Prefix(_));
        out.push((is_prefix, c.as_os_str().to_string_lossy().into_owned()));
    }
    out
}

/// The components after the leading prefixes.
pub open spec fn skip_prefixes(comps: Seq<(bool, Seq<char>)>) -> Seq<(bool, Seq<char>)>
    decreases comps.len(),
{
    if comps.len() > 0 && comps[0].0 {
        skip_prefixes(comps.drop_first())
    } else {
        comps
    }
}

/// The path built by joining the components, in order, onto an empty path.
pub open spec fn joined_components(comps: Seq<(bool, Seq<char>)>) -> Seq<char>
    decreases comps.len(),
{
    if comps.len() == 0 {
        Seq::empty()
    } else {
        path_join(joined_components(comps.drop_last()), comps.last().1)
    }
}

proof fn lemma_skip_prefixes_suffix(comps: Seq<(bool, Seq<char>)>)
    ensures
        exists|k: int|
            0 <= k <= comps.len() && skip_prefixes(comps) == comps.skip(k) && (forall|j: int|
                0 <= j < k ==> (#[trigger] comps[j]).0) && (k < comps.len() ==> !comps[k].0),
    decreases comps.len(),
{
    if comps.len() > 0 && comps[0].0 {
        lemma_skip_prefixes_suffix(comps.drop_first());
        let k = choose|k: int|
            0 <= k <= comps.drop_first().len() && skip_prefixes(comps.drop_first()) == comps.drop_first().skip(k) && (forall|j: int|
                0 <= j < k ==> (#[trigger] comps.drop_first()[j]).0) && (k < comps.drop_first().len() ==> !comps.drop_first()[k].0);
        assert(comps.drop_first().skip(k) =~= comps.skip(k + 1));
        assert forall|j: int| 0 <= j < k + 1 implies (#[trigger] comps[j]).0 by {
            if j > 0 {
                assert(comps[j] == comps.drop_first()[j - 1]);
            }
        }
        assert(k + 1 < comps.len() ==> comps[k + 1] == comps.drop_first()[k]);
    } else {
        assert(comps.skip(0) =~= comps);
    }
}

/// A path rebuilt from its components without the drive prefix in front.
pub fn get_path_without_drive_letter(path: &str) -> (r: String)
    ensures
        r@ == joined_components(skip_prefixes(path_components(path@))),
{
    let comps = components_of(path);
    let ghost views = comps@.map_values(|c: (bool, String)| (c.0, c.1@));
    let mut start: usize = 0;
    while start < comps.len() && comps[start].0
        invariant
            start <= comps@.len(),
            views == comps@.map_values(|c: (bool, String)| (c.0, c.1@)),
            forall|j: int| 0 <= j < start ==> (#[trigger] comps@[j]).0,
        decreases comps.len() - start,
    {
        start = start + 1;
    }
    let ghost rest = views.skip(start as int);
    proof {
        lemma_skip_prefixes_suffix(views);
        let k = choose|k: int|
            0 <= k <= views.len() && skip_prefixes(views) == views.skip(k) && (forall|j: int| 0 <= j < k ==> (#[trigger] views[j]).0)
                && (k < views.len() ==> !views[k].0);
        if k < start {
            assert(views[k].0 == comps@[k].0);
        } else if k > start {
            assert(views[start as int].0);
        }
        assert(skip_prefixes(views) == rest);
    }
    let mut result = String::new();
    let mut i: usize = start;
    proof {
        assert(rest.take(0) =~= Seq::<(bool, Seq<char>)>::empty());
    }
    while i < comps.len()
        invariant
            start <= i <= comps@.len(),
            views == comps@.map_values(|c: (bool, String)| (c.0, c.1@)),
            rest == views.skip(start as int),
            result@ == joined_components(rest.take(i - start)),
        decreases comps.len() - i,
    {
        let next = join_path(result.as_str(), comps[i].1.as_str());
        proof {
            let t = rest.take(i - start + 1);
            assert(t.drop_last() =~= rest.take(i - start));
            assert(t.last() == views[i as int]);
        }
        result = next;
        i = i + 1;
    }
    proof {
        assert(rest.take(comps@.len() - start) =~= rest);
    }
    result
}

} // verus!
