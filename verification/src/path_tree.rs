//! The folder tree of the duplicate files: every prefix of every duplicate
//! file's canonical path becomes a part, with the bytes of the duplicates
//! beneath it and a link to its parent part.
use vstd::prelude::*;
use crate::failure::str_equals;
use crate::stats::{join_with, split_on, split_text};
use crate::text::string_of;
use crate::cache::{CacheFile, FileTime};
use crate::validate::option_view;
use crate::path_parts::{extract_path_components, path_drive_letter, path_extension, path_file_name, without_drive};
use crate::worker::{parent_of, path_parent};

verus! {

/// One node of the tree: a drive, a folder or a file.
#[derive(Debug, Clone)]
pub struct DupeFilePart {
    pub id: i32,
    pub canonical_path: String,
    pub name: String,
    pub file_size: i64,
    pub parent_id: Option<i32>,
    /// 0 for a drive, 1 for a folder, 2 for a file.
    pub part_type: i32,
    pub has_child_dirs: bool,
    pub session_id: i32,
}

/// A part as the proofs see it.
pub struct PartView {
    pub id: int,
    pub path: Seq<char>,
    pub name: Seq<char>,
    pub size: int,
    pub parent: Option<int>,
    pub part_type: int,
    pub has_child_dirs: bool,
    pub session: int,
}

impl View for DupeFilePart {
    type V = PartView;

    open spec fn view(&self) -> PartView {
        PartView {
            id: self.id as int,
            path: self.canonical_path@,
            name: self.name@,
            size: self.file_size as int,
            parent: match self.parent_id {
                Some(p) => Some(p as int),
                None => None,
            },
            part_type: self.part_type as int,
            has_child_dirs: self.has_child_dirs,
            session: self.session_id as int,
        }
    }
}

pub open spec fn parts_view(v: Seq<DupeFilePart>) -> Seq<PartView> {
    v.map_values(|p: DupeFilePart| p@)
}

/// The components of a canonical path after its `\\?\` prefix: the pieces
/// between backslashes from the fourth on.
pub open spec fn canonical_name_parts(path: Seq<char>) -> Seq<Seq<char>> {
    split_on(path, '\\').skip(3)
}

/// The canonical path of the part made of the first `i + 1` components.
pub open spec fn prefix_key(parts: Seq<Seq<char>>, i: int) -> Seq<char> {
    join_with(parts.subrange(0, i + 1), seq!['\\'])
}

/// The kind of the component at `i` of `n`: the first is a drive, the last
/// a file, the others folders.
pub open spec fn part_kind(i: int, n: int) -> int {
    if i == 0 {
        0
    } else if i == n - 1 {
        2
    } else {
        1
    }
}

/// The first part at or after `k` whose canonical path is `key`.
pub open spec fn find_from(ps: Seq<PartView>, key: Seq<char>, k: int) -> Option<int>
    decreases ps.len() - k,
{
    if k < 0 || k >= ps.len() {
        None
    } else if ps[k].path == key {
        Some(k)
    } else {
        find_from(ps, key, k + 1)
    }
}

/// The tree under construction: the parts so far and the next part ID.
pub struct TreeState {
    pub parts: Seq<PartView>,
    pub next_id: int,
}

/// Adds component `i` of a file's path: an existing part with the same
/// canonical path takes the file's bytes, otherwise a new part is made.
/// Gives the new state and the ID of the part, the parent of the next one.
pub open spec fn add_component(
    s: TreeState,
    parts: Seq<Seq<char>>,
    i: int,
    parent: Option<int>,
    size: int,
    session: int,
) -> (TreeState, int) {
    let key = prefix_key(parts, i);
    match find_from(s.parts, key, 0) {
        Some(k) => (
            TreeState { parts: s.parts.update(k, PartView { size: s.parts[k].size + size, ..s.parts[k] }), ..s },
            s.parts[k].id,
        ),
        None => (
            TreeState {
                parts: s.parts.push(
                    PartView {
                        id: s.next_id,
                        path: key,
                        name: parts[i],
                        size,
                        parent,
                        part_type: part_kind(i, parts.len() as int),
                        has_child_dirs: false,
                        session,
                    },
                ),
                next_id: s.next_id + 1,
            },
            s.next_id,
        ),
    }
}

/// Adds the components `i..` of a file's path.
pub open spec fn add_components(
    s: TreeState,
    parts: Seq<Seq<char>>,
    i: int,
    parent: Option<int>,
    size: int,
    session: int,
) -> TreeState
    decreases parts.len() - i,
{
    if i < 0 || i >= parts.len() {
        s
    } else {
        let (next, id) = add_component(s, parts, i, parent, size, session);
        add_components(next, parts, i + 1, Some(id), size, session)
    }
}

/// The tree after the first `n` files, each given by its canonical path and
/// size.
pub open spec fn add_files(files: Seq<(Seq<char>, int)>, n: int, session: int) -> TreeState
    decreases n,
{
    if n <= 0 {
        TreeState { parts: Seq::empty(), next_id: 1 }
    } else {
        add_components(
            add_files(files, n - 1, session),
            canonical_name_parts(files[n - 1].0),
            0,
            None,
            files[n - 1].1,
            session,
        )
    }
}

/// A part that is not a file has child folders when some folder names it
/// as parent.
pub open spec fn has_child_dirs_spec(ps: Seq<PartView>, j: int) -> bool {
    ps[j].part_type != 2 && exists|k: int| 0 <= k < ps.len() && ps[k].parent == Some(ps[j].id) && ps[k].part_type == 1
}

/// The parts with `has_child_dirs` filled in.
pub open spec fn with_child_dirs(ps: Seq<PartView>) -> Seq<PartView> {
    Seq::new(ps.len(), |j: int| PartView { has_child_dirs: has_child_dirs_spec(ps, j), ..ps[j] })
}

/// A duplicate file as the tree reads it: its canonical path and size.
pub open spec fn file_entry(path: Seq<char>, size: i64) -> (Seq<char>, int) {
    (path, size as int)
}

/// The magnitude of a size.
pub open spec fn magnitude(x: int) -> int {
    if x < 0 {
        -x
    } else {
        x
    }
}

/// The sum of the magnitudes of the sizes of the first `n` files: a bound
/// on every part's running total.
pub open spec fn total_size(files: Seq<(Seq<char>, int)>, n: int) -> int
    decreases n,
{
    if n <= 0 {
        0
    } else {
        total_size(files, n - 1) + magnitude(files[n - 1].1)
    }
}

/// The number of path components of the first `n` files.
pub open spec fn total_components(files: Seq<(Seq<char>, int)>, n: int) -> int
    decreases n,
{
    if n <= 0 {
        0
    } else {
        total_components(files, n - 1) + canonical_name_parts(files[n - 1].0).len()
    }
}

/// The tree can be built: every canonical path has its `\\?\` prefix and a
/// component after it, the sizes add up within an `i64` however they are
/// grouped, and the parts can be numbered within an `i32`.
pub open spec fn tree_inputs_ok(files: Seq<(Seq<char>, int)>) -> bool {
    &&& forall|k: int| 0 <= k < files.len() ==> split_on((#[trigger] files[k]).0, '\\').len() > 3
    &&& total_size(files, files.len() as int) <= i64::MAX
    &&& total_components(files, files.len() as int) < i32::MAX
}

proof fn lemma_totals_grow(files: Seq<(Seq<char>, int)>, m: int, n: int)
    requires
        0 <= m <= n <= files.len(),
    ensures
        total_size(files, m) <= total_size(files, n),
        total_components(files, m) <= total_components(files, n),
        total_size(files, m) >= 0,
    decreases n,
{
    if m < n {
        lemma_totals_grow(files, m, n - 1);
    } else if m > 0 {
        lemma_totals_grow(files, m - 1, m - 1);
    }
}

/// Each prefix key is longer than the ones before it.
proof fn lemma_prefix_key_grows(parts: Seq<Seq<char>>, j: int, i: int)
    requires
        0 <= j < i < parts.len(),
    ensures
        prefix_key(parts, j).len() < prefix_key(parts, i).len(),
    decreases i - j,
{
    let sub = parts.subrange(0, i + 1);
    assert(sub.drop_last() =~= parts.subrange(0, i));
    assert(prefix_key(parts, i) == join_with(parts.subrange(0, i), seq!['\\']) + seq!['\\'] + parts[i]);
    if j < i - 1 {
        lemma_prefix_key_grows(parts, j, i - 1);
    }
}

/// A part found by `find_from` lies at or after the start and has the key.
proof fn lemma_find_from_found(ps: Seq<PartView>, key: Seq<char>, k: int)
    requires
        find_from(ps, key, k) is Some,
    ensures
        k <= find_from(ps, key, k)->0 < ps.len(),
        ps[find_from(ps, key, k)->0].path == key,
    decreases ps.len() - k,
{
    if 0 <= k < ps.len() && ps[k].path != key {
        lemma_find_from_found(ps, key, k + 1);
    }
}

/// The parts are numbered 1, 2, ... in order, and each part's parent is an
/// earlier part.
pub open spec fn numbered_tree(ps: Seq<PartView>) -> bool {
    forall|k: int|
        0 <= k < ps.len() ==> (#[trigger] ps[k]).id == k + 1 && (ps[k].parent matches Some(p) ==> 1 <= p <= k)
}

proof fn lemma_add_component_numbered(
    s: TreeState,
    parts: Seq<Seq<char>>,
    i: int,
    parent: Option<int>,
    size: int,
    session: int,
)
    requires
        numbered_tree(s.parts),
        s.next_id == s.parts.len() + 1,
        parent matches Some(p) ==> 1 <= p <= s.parts.len(),
    ensures
        ({
            let (t, id) = add_component(s, parts, i, parent, size, session);
            &&& numbered_tree(t.parts)
            &&& t.next_id == t.parts.len() + 1
            &&& 1 <= id <= t.parts.len()
            &&& s.parts.len() <= t.parts.len()
        }),
{
    let key = prefix_key(parts, i);
    if find_from(s.parts, key, 0) is Some {
        lemma_find_from_found(s.parts, key, 0);
        let (t, id) = add_component(s, parts, i, parent, size, session);
        assert forall|k: int| 0 <= k < t.parts.len() implies (#[trigger] t.parts[k]).id == k + 1 && (t.parts[k].parent matches Some(
            p,
        ) ==> 1 <= p <= k) by {
            assert(s.parts[k].id == k + 1);
        }
    } else {
        let (t, id) = add_component(s, parts, i, parent, size, session);
        assert forall|k: int| 0 <= k < t.parts.len() implies (#[trigger] t.parts[k]).id == k + 1 && (t.parts[k].parent matches Some(
            p,
        ) ==> 1 <= p <= k) by {
            if k < s.parts.len() {
                assert(t.parts[k] == s.parts[k]);
            }
        }
    }
}

proof fn lemma_add_components_numbered(
    s: TreeState,
    parts: Seq<Seq<char>>,
    i: int,
    parent: Option<int>,
    size: int,
    session: int,
)
    requires
        numbered_tree(s.parts),
        s.next_id == s.parts.len() + 1,
        parent matches Some(p) ==> 1 <= p <= s.parts.len(),
    ensures
        numbered_tree(add_components(s, parts, i, parent, size, session).parts),
        add_components(s, parts, i, parent, size, session).next_id == add_components(
            s,
            parts,
            i,
            parent,
            size,
            session,
        ).parts.len() + 1,
    decreases parts.len() - i,
{
    if 0 <= i < parts.len() {
        lemma_add_component_numbered(s, parts, i, parent, size, session);
        let (next, id) = add_component(s, parts, i, parent, size, session);
        lemma_add_components_numbered(next, parts, i + 1, Some(id), size, session);
    }
}

proof fn lemma_add_files_numbered(files: Seq<(Seq<char>, int)>, n: int, session: int)
    ensures
        numbered_tree(add_files(files, n, session).parts),
        add_files(files, n, session).next_id == add_files(files, n, session).parts.len() + 1,
    decreases n,
{
    if n > 0 {
        lemma_add_files_numbered(files, n - 1, session);
        lemma_add_components_numbered(
            add_files(files, n - 1, session),
            canonical_name_parts(files[n - 1].0),
            0,
            None,
            files[n - 1].1,
            session,
        );
    }
}

/// The folder tree is a tree: its parts are numbered 1, 2, ... in the order
/// they were made, and every parent link points to an earlier part, so
/// following parents always ends at a part without one.
pub proof fn lemma_parts_form_a_tree(files: Seq<(Seq<char>, int)>, session: int)
    ensures
        numbered_tree(with_child_dirs(add_files(files, files.len() as int, session).parts)),
{
    lemma_add_files_numbered(files, files.len() as int, session);
    let ps = add_files(files, files.len() as int, session).parts;
    assert forall|k: int| 0 <= k < with_child_dirs(ps).len() implies (#[trigger] with_child_dirs(ps)[k]).id == k + 1 && (
    with_child_dirs(ps)[k].parent matches Some(p) ==> 1 <= p <= k) by {
        assert(ps[k].id == k + 1);
    }
}

fn with_size(p: &DupeFilePart, size: i64) -> (r: DupeFilePart)
    ensures
        r@ == (PartView { size: size as int, ..p@ }),
{
    DupeFilePart {
        id: p.id,
        canonical_path: p.canonical_path.clone(),
        name: p.name.clone(),
        file_size: size,
        parent_id: p.parent_id,
        part_type: p.part_type,
        has_child_dirs: p.has_child_dirs,
        session_id: p.session_id,
    }
}

fn find_part(parts: &Vec<DupeFilePart>, key: &String) -> (r: Option<usize>)
    ensures
        r matches Some(k) ==> find_from(parts_view(parts@), key@, 0) == Some(k as int) && k < parts@.len(),
        r is None ==> find_from(parts_view(parts@), key@, 0) is None,
{
    let ghost ps = parts_view(parts@);
    let mut k: usize = 0;
    while k < parts.len()
        invariant
            k <= parts@.len(),
            ps == parts_view(parts@),
            find_from(ps, key@, 0) == find_from(ps, key@, k as int),
        decreases parts.len() - k,
    {
        if str_equals(parts[k].canonical_path.as_str(), key.as_str()) {
            proof {
                lemma_find_from_found(ps, key@, k as int);
            }
            return Some(k);
        }
        k = k + 1;
    }
    None
}

/// Adds the components of one canonical path to the tree: each prefix of
/// the path either takes the file's bytes or becomes a new part under the
/// previous one.
fn process_path_parts(parts: &mut Vec<DupeFilePart>, next_id: &mut i32, canonical_path: &str, file_size: i64, session_id: i32)
    requires
        split_on(canonical_path@, '\\').len() > 3,
        *old(next_id) + canonical_name_parts(canonical_path@).len() <= i32::MAX,
        forall|k: int|
            0 <= k < old(parts)@.len() ==> magnitude((#[trigger] old(parts)@[k]).file_size as int) + magnitude(file_size as int)
                <= i64::MAX,
    ensures
        ({
            let after = add_components(
                TreeState { parts: parts_view(old(parts)@), next_id: *old(next_id) as int },
                canonical_name_parts(canonical_path@),
                0,
                None,
                file_size as int,
                session_id as int,
            );
            parts_view(final(parts)@) == after.parts && *final(next_id) == after.next_id
        }),
        *final(next_id) <= *old(next_id) + canonical_name_parts(canonical_path@).len(),
        forall|k: int|
            0 <= k < final(parts)@.len() ==> magnitude((#[trigger] final(parts)@[k]).file_size as int) <= (if k < old(
                parts,
            )@.len() {
                magnitude(old(parts)@[k].file_size as int) + magnitude(file_size as int)
            } else {
                magnitude(file_size as int)
            }),
{
    let pieces = split_text(canonical_path, '\\');
    let ghost cps = canonical_name_parts(canonical_path@);
    let ghost start = TreeState { parts: parts_view(parts@), next_id: *next_id as int };
    let ghost start_parts = parts@;
    let ghost start_id = *next_id as int;
    assert(pieces@.map_values(|w: Vec<char>| w@).skip(3) =~= cps);
    let n: usize = pieces.len() - 3;
    let mut key: Vec<char> = Vec::new();
    let mut parent: Option<i32> = None;
    let mut i: usize = 0;
    while i < n
        invariant
            n == cps.len(),
            pieces@.len() == n + 3,
            pieces.len() == n + 3,
            forall|k: int|
                0 <= k < start_parts.len() ==> magnitude((#[trigger] start_parts[k]).file_size as int) + magnitude(file_size as int)
                    <= i64::MAX,
            pieces@.map_values(|w: Vec<char>| w@).skip(3) == cps,
            i <= n,
            start_id + n <= i32::MAX,
            start_id <= *next_id <= start_id + i,
            parts@.len() >= start_parts.len(),
            i > 0 ==> key@ == prefix_key(cps, i - 1),
            i == 0 ==> key@ == Seq::<char>::empty(),
            add_components(TreeState { parts: parts_view(parts@), next_id: *next_id as int }, cps, i as int, match parent {
                Some(p) => Some(p as int),
                None => None,
            }, file_size as int, session_id as int) == add_components(start, cps, 0, None, file_size as int, session_id as int),
            forall|k: int|
                0 <= k < parts@.len() ==> magnitude((#[trigger] parts@[k]).file_size as int) <= (if k < start_parts.len() {
                    magnitude(start_parts[k].file_size as int) + magnitude(file_size as int)
                } else {
                    magnitude(file_size as int)
                }),
            forall|k: int|
                0 <= k < parts@.len() ==> (magnitude((#[trigger] parts@[k]).file_size as int) <= (if k < start_parts.len() {
                    magnitude(start_parts[k].file_size as int)
                } else {
                    0
                }) || exists|j: int| 0 <= j < i && parts@[k].canonical_path@ == prefix_key(cps, j)),
        decreases n - i,
    {
        let piece = &pieces[i + 3];
        assert(piece@ == cps[i as int]);
        if i > 0 {
            key.push('\\');
        }
        let mut c: usize = 0;
        let ghost key_start = key@;
        while c < piece.len()
            invariant
                c <= piece@.len(),
                key@ == key_start + piece@.subrange(0, c as int),
            decreases piece.len() - c,
        {
            key.push(piece[c]);
            assert(piece@.subrange(0, c + 1) =~= piece@.subrange(0, c as int).push(piece@[c as int]));
            c = c + 1;
        }
        assert(piece@.subrange(0, piece@.len() as int) =~= piece@);
        proof {
            let sub = cps.subrange(0, i + 1);
            if i == 0 {
                assert(sub =~= seq![cps[0]]);
                assert(key@ =~= prefix_key(cps, 0));
            } else {
                assert(sub.drop_last() =~= cps.subrange(0, i as int));
                assert(key@ =~= prefix_key(cps, i as int));
            }
        }
        let key_text = string_of(&key);
        let ghost before = TreeState { parts: parts_view(parts@), next_id: *next_id as int };
        let ghost before_parts = parts@;
        let ghost parent_view = match parent {
            Some(p) => Some(p as int),
            None => None,
        };
        match find_part(parts, &key_text) {
            Some(k) => {
                proof {
                    lemma_find_from_found(before.parts, key_text@, 0);
                    if exists|j: int| 0 <= j < i && before_parts[k as int].canonical_path@ == prefix_key(cps, j) {
                        let j = choose|j: int| 0 <= j < i && before_parts[k as int].canonical_path@ == prefix_key(cps, j);
                        lemma_prefix_key_grows(cps, j, i as int);
                    }
                }
                let size = parts[k].file_size + file_size;
                let updated = with_size(&parts[k], size);
                let id = parts[k].id;
                parts.set(k, updated);
                assert(parts_view(parts@) =~= before.parts.update(
                    k as int,
                    PartView { size: before.parts[k as int].size + file_size, ..before.parts[k as int] },
                ));
                parent = Some(id);
                assert forall|m: int| 0 <= m < parts@.len() implies (#[trigger] parts@[m]) == before_parts[m]
                    || parts@[m].canonical_path@ == prefix_key(cps, i as int) by {}
                assert(parts@.len() == before_parts.len());
            },
            None => {
                let kind: i32 = if i == 0 {
                    0
                } else if i == n - 1 {
                    2
                } else {
                    1
                };
                let part = DupeFilePart {
                    id: *next_id,
                    canonical_path: key_text,
                    name: string_of(piece),
                    file_size,
                    parent_id: parent,
                    part_type: kind,
                    has_child_dirs: false,
                    session_id,
                };
                parts.push(part);
                assert(parts_view(parts@) =~= before.parts.push(parts@.last()@));
                parent = Some(*next_id);
                *next_id = *next_id + 1;
                assert forall|m: int| 0 <= m < parts@.len() implies (#[trigger] parts@[m]) == before_parts[m]
                    || parts@[m].canonical_path@ == prefix_key(cps, i as int) by {}
                assert(parts@.len() == before_parts.len() + 1);
            },
        }
        assert(TreeState { parts: parts_view(parts@), next_id: *next_id as int } == add_component(
            before,
            cps,
            i as int,
            parent_view,
            file_size as int,
            session_id as int,
        ).0);
        assert forall|k: int| 0 <= k < parts@.len() implies (magnitude((#[trigger] parts@[k]).file_size as int) <= (if k
            < start_parts.len() {
            magnitude(start_parts[k].file_size as int)
        } else {
            0
        }) || exists|j: int| 0 <= j < i + 1 && parts@[k].canonical_path@ == prefix_key(cps, j)) by {
            if k >= before_parts.len() || parts@[k] != before_parts[k] {
                assert(parts@[k].canonical_path@ == prefix_key(cps, i as int));
            } else {
                if exists|j: int| 0 <= j < i && before_parts[k].canonical_path@ == prefix_key(cps, j) {
                    let j = choose|j: int| 0 <= j < i && before_parts[k].canonical_path@ == prefix_key(cps, j);
                    assert(0 <= j < i + 1 && parts@[k].canonical_path@ == prefix_key(cps, j));
                }
            }
        }
        i = i + 1;
    }
}

/// Whether the part at `j` has a child folder.
fn has_child_dir(parts: &Vec<DupeFilePart>, j: usize) -> (r: bool)
    requires
        j < parts@.len(),
    ensures
        r == has_child_dirs_spec(parts_view(parts@), j as int),
{
    let ghost ps = parts_view(parts@);
    if parts[j].part_type == 2 {
        return false;
    }
    let id = parts[j].id;
    let mut k: usize = 0;
    while k < parts.len()
        invariant
            j < parts@.len(),
            ps == parts_view(parts@),
            id == parts@[j as int].id,
            ps[j as int].part_type != 2,
            k <= parts@.len(),
            forall|m: int| 0 <= m < k ==> !(ps[m].parent == Some(ps[j as int].id) && #[trigger] ps[m].part_type == 1),
        decreases parts.len() - k,
    {
        let is_child = match parts[k].parent_id {
            Some(p) => p == id,
            None => false,
        };
        if is_child && parts[k].part_type == 1 {
            assert(ps[k as int].parent == Some(ps[j as int].id) && ps[k as int].part_type == 1);
            return true;
        }
        k = k + 1;
    }
    false
}

/// Marks each part that is not a file and has a folder among its children.
fn update_has_child_dirs(parts: &mut Vec<DupeFilePart>)
    ensures
        parts_view(final(parts)@) == with_child_dirs(parts_view(old(parts)@)),
{
    let ghost start = parts_view(parts@);
    let mut flags: Vec<bool> = Vec::new();
    let mut j: usize = 0;
    while j < parts.len()
        invariant
            start == parts_view(parts@),
            j <= parts@.len(),
            flags@.len() == j,
            forall|m: int| 0 <= m < j ==> flags@[m] == has_child_dirs_spec(start, m),
        decreases parts.len() - j,
    {
        let flag = has_child_dir(parts, j);
        flags.push(flag);
        j = j + 1;
    }
    let ghost target = with_child_dirs(start);
    let mut j: usize = 0;
    while j < parts.len()
        invariant
            parts@.len() == start.len(),
            flags@.len() == start.len(),
            target == with_child_dirs(start),
            j <= parts@.len(),
            forall|m: int| 0 <= m < start.len() ==> flags@[m] == has_child_dirs_spec(start, m),
            forall|m: int| 0 <= m < j ==> (#[trigger] parts@[m])@ == target[m],
            forall|m: int| j <= m < parts@.len() ==> (#[trigger] parts@[m])@ == start[m],
        decreases parts.len() - j,
    {
        let p = &parts[j];
        let updated = DupeFilePart {
            id: p.id,
            canonical_path: p.canonical_path.clone(),
            name: p.name.clone(),
            file_size: p.file_size,
            parent_id: p.parent_id,
            part_type: p.part_type,
            has_child_dirs: flags[j],
            session_id: p.session_id,
        };
        parts.set(j, updated);
        j = j + 1;
    }
    assert(parts_view(parts@) =~= target);
}

/// A file found among the duplicates, as it is stored.
#[derive(Debug, Clone)]
pub struct DupeFile {
    pub canonical_path: String,
    pub path_no_drive: String,
    pub file_name: String,
    pub file_extension: Option<String>,
    pub drive_letter: Option<String>,
    pub parent_dir: String,
    pub file_size: i64,
    pub last_modified: FileTime,
    pub full_hash: i64,
    pub partial_hash: i64,
}

/// What the tree reads of the duplicate files: canonical path and size.
pub open spec fn files_view(files: Seq<DupeFile>) -> Seq<(Seq<char>, int)> {
    files.map_values(|f: DupeFile| file_entry(f.canonical_path@, f.file_size))
}

/// A stored hash: the cached one as its bit pattern in an `i64`, or 0.
pub open spec fn stored_hash(h: Option<u64>) -> i64 {
    match h {
        Some(v) => v as i64,
        None => 0,
    }
}

fn hash_bits(h: Option<u64>) -> (r: i64)
    ensures
        r == stored_hash(h),
{
    match h {
        Some(v) => v as i64,
        None => 0,
    }
}

impl DupeFile {
    /// The stored form of a cached file: its path taken apart, its size and
    /// time, and its hashes (0 where none was computed).
    pub fn from_cache_file(cache_file: &CacheFile) -> (r: DupeFile)
        requires
            path_parent(cache_file.path@) is Some,
        ensures
            r.canonical_path@ == cache_file.canonical_path@,
            r.path_no_drive@ == without_drive(cache_file.path@),
            r.file_name@ == match path_file_name(cache_file.path@) {
                Some(n) => n,
                None => Seq::empty(),
            },
            option_view(r.file_extension) == path_extension(cache_file.path@),
            option_view(r.drive_letter) == path_drive_letter(cache_file.path@),
            Some(r.parent_dir@) == path_parent(cache_file.path@),
            r.file_size == cache_file.file_size,
            r.last_modified == cache_file.last_modified,
            r.full_hash == stored_hash(cache_file.full_hash),
            r.partial_hash == stored_hash(cache_file.partial_hash),
    {
        let parts = extract_path_components(cache_file.path.as_str());
        DupeFile {
            canonical_path: cache_file.canonical_path.clone(),
            path_no_drive: parts.path_without_drive,
            file_name: parts.base_filename,
            file_extension: parts.extension,
            drive_letter: parts.drive_letter,
            parent_dir: parts.parent_dir,
            file_size: cache_file.file_size,
            last_modified: cache_file.last_modified,
            full_hash: hash_bits(cache_file.full_hash),
            partial_hash: hash_bits(cache_file.partial_hash),
        }
    }
}

/// The stored form of a cached file, or `None` when its path has no parent
/// directory.
pub fn try_from_cache_file(cache_file: &CacheFile) -> (r: Option<DupeFile>)
    ensures
        r is Some <==> path_parent(cache_file.path@) is Some,
        r matches Some(d) ==> d.canonical_path@ == cache_file.canonical_path@ && d.file_size == cache_file.file_size
            && Some(d.parent_dir@) == path_parent(cache_file.path@),
{
    match parent_of(cache_file.path.as_str()) {
        Some(_) => Some(DupeFile::from_cache_file(cache_file)),
        None => None,
    }
}

impl DupeFilePart {
    /// Whether the part is a folder.
    pub fn is_directory(&self) -> (r: bool)
        ensures
            r == (self.part_type == 1),
    {
        self.part_type == 1
    }

    /// The folder tree of the duplicate files: for each file in turn, each
    /// prefix of its canonical path (after the `\\?\` prefix) either adds
    /// the file's bytes to the part already made for it or becomes a new
    /// part, numbered from 1, under the part of the prefix before it. Then
    /// each part that is not a file is marked when a folder has it as
    /// parent. The parts come in the order they were made.
    pub fn parts_from_dupe_files(dupe_files: &[DupeFile], session_id: &i32) -> (r: Vec<DupeFilePart>)
        requires
            tree_inputs_ok(files_view(dupe_files@)),
        ensures
            parts_view(r@) == with_child_dirs(
                add_files(files_view(dupe_files@), dupe_files@.len() as int, *session_id as int).parts,
            ),
    {
        let ghost files = files_view(dupe_files@);
        let mut parts: Vec<DupeFilePart> = Vec::new();
        let mut next_id: i32 = 1;
        let mut i: usize = 0;
        proof {
            lemma_totals_grow(files, 0, files.len() as int);
        }
        while i < dupe_files.len()
            invariant
                files == files_view(dupe_files@),
                tree_inputs_ok(files),
                i <= dupe_files@.len(),
                parts_view(parts@) == add_files(files, i as int, *session_id as int).parts,
                next_id == add_files(files, i as int, *session_id as int).next_id,
                next_id <= 1 + total_components(files, i as int),
                forall|k: int| 0 <= k < parts@.len() ==> magnitude((#[trigger] parts@[k]).file_size as int) <= total_size(files, i as int),
            decreases dupe_files.len() - i,
        {
            let f = &dupe_files[i];
            proof {
                assert(files[i as int] == file_entry(f.canonical_path@, f.file_size));
                lemma_totals_grow(files, i as int + 1, files.len() as int);
                lemma_totals_grow(files, i as int, i as int + 1);
            }
            process_path_parts(&mut parts, &mut next_id, f.canonical_path.as_str(), f.file_size, *session_id);
            i = i + 1;
        }
        update_has_child_dirs(&mut parts);
        parts
    }
}

} // verus!
