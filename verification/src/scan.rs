//! The scanner's rules: which directory entries it takes, and which paths
//! its ignore globs exclude.
use vstd::prelude::*;
use crate::failure::{string_from, DetailValue, DetailView, ProtocolFailure};
use crate::session::{check_glob_pattern, glob_pattern_error, pattern_glob_failure};
use crate::validate::strings_view;

verus! {

/// What `glob::Pattern::matches_path` gives for a pattern that compiles
/// and a path.
pub uninterp spec fn glob_path_match(pattern: Seq<char>, path: Seq<char>) -> bool;

/// `glob::Pattern::new(pattern)` and then `matches_path(path)`: `None`
/// when the pattern does not compile.
#[verifier::external_body]
fn pattern_matches_path(pattern: &str, path: &str) -> (r: Option<bool>)
    ensures
        r is None <==> glob_pattern_error(pattern@) is Some,
        r matches Some(b) ==> b == glob_path_match(pattern@, path@),
{
    match glob::Pattern::new(pattern) {
        Ok(p) => Some(p.matches_path(std::path::Path::new(path))),
        Err(_) => None,
    }
}

/// The first glob at or after `k` that does not compile.
pub open spec fn first_invalid_glob(globs: Seq<Seq<char>>, k: int) -> Option<int>
    decreases globs.len() - k,
{
    if k < 0 || k >= globs.len() {
        None
    } else if glob_pattern_error(globs[k]) is Some {
        Some(k)
    } else {
        first_invalid_glob(globs, k + 1)
    }
}

proof fn lemma_first_invalid_glob(globs: Seq<Seq<char>>, k: int)
    requires
        0 <= k,
    ensures
        first_invalid_glob(globs, k) is Some <==> exists|i: int| k <= i < globs.len() && glob_pattern_error(#[trigger] globs[i]) is Some,
        first_invalid_glob(globs, k) matches Some(i) ==> k <= i < globs.len() && glob_pattern_error(globs[i]) is Some,
    decreases globs.len() - k,
{
    if k < globs.len() {
        lemma_first_invalid_glob(globs, k + 1);
    }
}

/// Whether the scan ignores `path`: every ignore glob must compile (the
/// failure of the first that does not is reported), and the path is
/// ignored when some glob matches it.
pub fn is_ignored(path: &str, globs: &Vec<String>) -> (r: Result<bool, ProtocolFailure>)
    ensures
        r is Err <==> exists|i: int| 0 <= i < globs@.len() && glob_pattern_error(#[trigger] globs@[i]@) is Some,
        r matches Err(f) ==> first_invalid_glob(strings_view(globs@), 0) matches Some(i) && f@ =~~= pattern_glob_failure(
            globs@[i]@,
            glob_pattern_error(globs@[i]@)->0,
        ),
        r matches Ok(b) ==> (b <==> exists|i: int| 0 <= i < globs@.len() && glob_path_match(#[trigger] globs@[i]@, path@)),
{
    let ghost gv = strings_view(globs@);
    proof {
        lemma_first_invalid_glob(gv, 0);
    }
    let mut matched = false;
    let mut i: usize = 0;
    while i < globs.len()
        invariant
            i <= globs@.len(),
            gv == strings_view(globs@),
            first_invalid_glob(gv, 0) == first_invalid_glob(gv, i as int),
            forall|t: int| 0 <= t < i ==> glob_pattern_error(#[trigger] globs@[t]@) is None,
            matched <==> exists|t: int| 0 <= t < i && glob_path_match(#[trigger] globs@[t]@, path@),
        decreases globs.len() - i,
    {
        assert(gv[i as int] == globs@[i as int]@);
        match pattern_matches_path(globs[i].as_str(), path) {
            None => {
                let error = match check_glob_pattern(globs[i].as_str()) {
                    Some(e) => e,
                    None => String::new(),
                };
                let pattern = globs[i].clone();
                let mut message = string_from("Invalid ignore pattern '");
                message.append(pattern.as_str());
                message.append("': ");
                message.append(error.as_str());
                let f = ProtocolFailure { code: string_from("invalid_session"), message, retryable: false, details: Vec::new() };
                assert(f@.details =~= Seq::<(Seq<char>, DetailView)>::empty());
                let g = f.with_field("ignorePatterns").with_detail("pattern", DetailValue::Text(pattern));
                assert(first_invalid_glob(gv, i as int) == Some(i as int));
                assert(g@ =~~= pattern_glob_failure(globs@[i as int]@, glob_pattern_error(globs@[i as int]@)->0));
                return Err(g);
            },
            Some(b) => {
                if b {
                    matched = true;
                }
            },
        }
        i = i + 1;
    }
    Ok(matched)
}

/// What the scanner does with a directory entry.
#[derive(Clone, Copy, Debug, PartialEq, Eq, Structural)]
pub enum EntryAction {
    /// Visit the directory (unless an ignore glob matches it).
    Descend,
    /// Take the file (unless an ignore glob matches it).
    Take,
    /// Leave it: a symbolic link or an empty file.
    Skip,
}

/// Directories are visited; files that are not symbolic links and hold at
/// least one byte are taken; everything else is left.
pub fn entry_action(is_dir: bool, is_symlink: bool, len: u64) -> (r: EntryAction)
    ensures
        r == (if is_dir {
            EntryAction::Descend
        } else if !is_symlink && len > 0 {
            EntryAction::Take
        } else {
            EntryAction::Skip
        }),
{
    if is_dir {
        EntryAction::Descend
    } else if !is_symlink && len > 0 {
        EntryAction::Take
    } else {
        EntryAction::Skip
    }
}

} // verus!
