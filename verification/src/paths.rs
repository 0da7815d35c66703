//! Path rules of Unix and Windows: lexical normalization, containment of one path in
//! another, component-wise prefixes, and the reduction of a list of
//! directories to the ones no other listed directory contains.
use vstd::prelude::*;
use vstd::utf8::{encode_utf8, is_char_boundary};
use crate::failure::{field_details, failure, string_from, DetailValue, DetailView, FailureView, ProtocolFailure};
use vstd::string::StringSliceAdditionalSpecFns;
use crate::path_parts::{components_of, path_components};
use crate::text::{
    chars_of, decimal_nat, lowercase_of, string_of, to_lowercase, trim_chars, trim_end_char, trim_end_char_spec, trim_spec,
    u64_to_decimal,
};

verus! {

/// The path rules of a platform: Unix paths separate with `/`; Windows
/// paths with `\` (and accept `/`), ignore case, and may carry the
/// verbatim prefixes `\\?\` and `\\?\UNC\`.
#[derive(Clone, Copy, Debug, PartialEq, Eq, Structural)]
pub enum PathStyle {
    Unix,
    Windows,
}

/// `std::path::MAIN_SEPARATOR`: the separator of the platform the library
/// was built for. Nothing is stated of it: it depends on the machine.
#[verifier::external_body]
fn main_separator() -> char {
    std::path::MAIN_SEPARATOR
}

/// The path rules of a platform whose main separator is `main`:
/// Windows rules for `\`, Unix rules otherwise.
pub fn path_style_for_separator(main: char) -> (r: PathStyle)
    ensures
        r == (if main == '\\' {
            PathStyle::Windows
        } else {
            PathStyle::Unix
        }),
{
    if main == '\\' {
        PathStyle::Windows
    } else {
        PathStyle::Unix
    }
}

/// The path rules of the platform this runs on, chosen by its main
/// separator. Which rules those are depends on the machine.
pub fn host_path_style() -> PathStyle {
    path_style_for_separator(main_separator())
}

/// The separator that starts the rest of a path below an ancestor.
pub open spec fn separator(style: PathStyle) -> char {
    match style {
        PathStyle::Unix => '/',
        PathStyle::Windows => '\\',
    }
}

/// The path without the trailing characters that are `/` or `\`.
pub open spec fn trim_end_separators(s: Seq<char>) -> Seq<char>
    decreases s.len(),
{
    if s.len() > 0 && (s.last() == '/' || s.last() == '\\') {
        trim_end_separators(s.drop_last())
    } else {
        s
    }
}

fn trim_end_separators_of(s: &Vec<char>) -> (r: Vec<char>)
    ensures
        r@ == trim_end_separators(s@),
{
    let mut b: usize = s.len();
    assert(s@.subrange(0, b as int) =~= s@);
    while b > 0 && (s[b - 1] == '/' || s[b - 1] == '\\')
        invariant
            b <= s@.len(),
            trim_end_separators(s@.subrange(0, b as int)) == trim_end_separators(s@),
        decreases b,
    {
        assert(s@.subrange(0, b as int).drop_last() =~= s@.subrange(0, b - 1));
        b = b - 1;
    }
    let mut r: Vec<char> = Vec::new();
    let mut i: usize = 0;
    while i < b
        invariant
            i <= b <= s@.len(),
            r@ == s@.subrange(0, i as int),
        decreases b - i,
    {
        r.push(s[i]);
        i = i + 1;
    }
    assert(s@.subrange(0, b as int) =~= r@);
    r
}

/// `lexical_path`: the path without trailing separators (`/` on Unix, `\`
/// and `/` on Windows).
pub open spec fn lexical_spec(style: PathStyle, p: Seq<char>) -> Seq<char> {
    match style {
        PathStyle::Unix => trim_end_char_spec(p, '/'),
        PathStyle::Windows => trim_end_separators(p),
    }
}

pub fn lexical_path(path: &str, style: PathStyle) -> (r: String)
    ensures
        r@ == lexical_spec(style, path@),
{
    match style {
        PathStyle::Unix => string_of(&trim_end_char(&chars_of(path), '/')),
        PathStyle::Windows => string_of(&trim_end_separators_of(&chars_of(path))),
    }
}

/// Every `/` of a path turned into `\`.
pub open spec fn backslashed(p: Seq<char>) -> Seq<char> {
    p.map_values(|c: char| if c == '/' { '\\' } else { c })
}

/// The verbatim UNC prefix `\\?\UNC\`.
pub open spec fn verbatim_unc_prefix() -> Seq<char> {
    seq!['\\', '\\', '?', '\\', 'U', 'N', 'C', '\\']
}

/// The verbatim prefix `\\?\`.
pub open spec fn verbatim_prefix() -> Seq<char> {
    seq!['\\', '\\', '?', '\\']
}

pub open spec fn has_prefix(p: Seq<char>, prefix: Seq<char>) -> bool {
    prefix.len() <= p.len() && p.subrange(0, prefix.len() as int) == prefix
}

/// A path without its verbatim prefix: `\\?\UNC\server\share` becomes
/// `\\server\share`, and `\\?\C:\x` becomes `C:\x`.
pub open spec fn without_verbatim(p: Seq<char>) -> Seq<char> {
    if has_prefix(p, verbatim_unc_prefix()) {
        seq!['\\', '\\'] + p.subrange(8, p.len() as int)
    } else if has_prefix(p, verbatim_prefix()) {
        p.subrange(4, p.len() as int)
    } else {
        p
    }
}

/// The key under which two paths are compared. On Unix: the path without
/// trailing `/`. On Windows: `/` read as `\`, the verbatim prefix dropped,
/// trailing `\` removed, and the rest in lower case.
pub open spec fn compare_key(style: PathStyle, p: Seq<char>) -> Seq<char> {
    match style {
        PathStyle::Unix => trim_end_char_spec(p, '/'),
        PathStyle::Windows => lowercase_of(trim_end_char_spec(without_verbatim(backslashed(p)), '\\')),
    }
}

fn starts_with_chars(p: &Vec<char>, prefix: &Vec<char>) -> (r: bool)
    ensures
        r == has_prefix(p@, prefix@),
{
    if prefix.len() > p.len() {
        return false;
    }
    let mut i: usize = 0;
    while i < prefix.len()
        invariant
            prefix@.len() <= p@.len(),
            i <= prefix@.len(),
            forall|j: int| 0 <= j < i ==> p@[j] == prefix@[j],
        decreases prefix.len() - i,
    {
        if p[i] != prefix[i] {
            assert(p@.subrange(0, prefix@.len() as int)[i as int] != prefix@[i as int]);
            return false;
        }
        i = i + 1;
    }
    assert(p@.subrange(0, prefix@.len() as int) =~= prefix@);
    true
}

/// The characters of `p` from `start` on, after `head`.
fn tail_after(head: Vec<char>, p: &Vec<char>, start: usize) -> (r: Vec<char>)
    requires
        start <= p@.len(),
    ensures
        r@ == head@ + p@.subrange(start as int, p@.len() as int),
{
    let mut out = head;
    let ghost h = out@;
    let mut i: usize = start;
    while i < p.len()
        invariant
            start <= i <= p@.len(),
            out@ == h + p@.subrange(start as int, i as int),
        decreases p.len() - i,
    {
        out.push(p[i]);
        assert(p@.subrange(start as int, i + 1) =~= p@.subrange(start as int, i as int).push(p@[i as int]));
        i = i + 1;
    }
    out
}

fn windows_key(path: &str) -> (r: Vec<char>)
    ensures
        r@ == compare_key(PathStyle::Windows, path@),
{
    let chars = chars_of(path);
    let mut slashed: Vec<char> = Vec::new();
    let mut i: usize = 0;
    while i < chars.len()
        invariant
            i <= chars@.len(),
            slashed@ == backslashed(chars@.subrange(0, i as int)),
        decreases chars.len() - i,
    {
        let c = chars[i];
        if c == '/' {
            slashed.push('\\');
        } else {
            slashed.push(c);
        }
        assert(backslashed(chars@.subrange(0, i + 1)) =~= backslashed(chars@.subrange(0, i as int)).push(
            if c == '/' { '\\' } else { c },
        ));
        i = i + 1;
    }
    assert(chars@.subrange(0, chars@.len() as int) =~= chars@);
    let unc: Vec<char> = vec!['\\', '\\', '?', '\\', 'U', 'N', 'C', '\\'];
    let verbatim: Vec<char> = vec!['\\', '\\', '?', '\\'];
    assert(unc@ =~= verbatim_unc_prefix());
    assert(verbatim@ =~= verbatim_prefix());
    let stripped = if starts_with_chars(&slashed, &unc) {
        let head: Vec<char> = vec!['\\', '\\'];
        assert(head@ =~= seq!['\\', '\\']);
        tail_after(head, &slashed, 8)
    } else if starts_with_chars(&slashed, &verbatim) {
        tail_after(Vec::new(), &slashed, 4)
    } else {
        assert(slashed@.subrange(0, slashed@.len() as int) =~= slashed@);
        tail_after(Vec::new(), &slashed, 0)
    };
    assert(stripped@ =~= without_verbatim(backslashed(path@)));
    let trimmed = trim_end_char(&stripped, '\\');
    chars_of(to_lowercase(string_of(&trimmed).as_str()).as_str())
}

fn key_chars(path: &str, style: PathStyle) -> (r: Vec<char>)
    ensures
        r@ == compare_key(style, path@),
{
    match style {
        PathStyle::Unix => trim_end_char(&chars_of(path), '/'),
        PathStyle::Windows => windows_key(path),
    }
}

/// The key under which two paths are compared.
pub fn path_compare_key(path: &str, style: PathStyle) -> (r: String)
    ensures
        r@ == compare_key(style, path@),
{
    string_of(&key_chars(path, style))
}

/// Two paths name the same location when their comparison keys agree.
pub fn paths_equal(left: &str, right: &str, style: PathStyle) -> (r: bool)
    ensures
        r == (compare_key(style, left@) == compare_key(style, right@)),
{
    let a = key_chars(left, style);
    let b = key_chars(right, style);
    seq_equal(&a, &b)
}

fn seq_equal(a: &Vec<char>, b: &Vec<char>) -> (r: bool)
    ensures
        r == (a@ == b@),
{
    if a.len() != b.len() {
        return false;
    }
    let mut i: usize = 0;
    while i < a.len()
        invariant
            a@.len() == b@.len(),
            i <= a@.len(),
            forall|j: int| 0 <= j < i ==> a@[j] == b@[j],
        decreases a.len() - i,
    {
        if a[i] != b[i] {
            assert(a@[i as int] != b@[i as int]);
            return false;
        }
        i = i + 1;
    }
    assert(a@ =~= b@);
    true
}

/// `path` is `ancestor` or lies below it: their keys agree, or the
/// ancestor's key is followed in the path's key by a separator.
pub open spec fn within_spec(style: PathStyle, path: Seq<char>, ancestor: Seq<char>) -> bool {
    let p = compare_key(style, path);
    let a = compare_key(style, ancestor);
    p == a || (a.len() < p.len() && p.subrange(0, a.len() as int) == a && p[a.len() as int] == separator(style))
}

pub fn path_is_within(path: &str, ancestor: &str, style: PathStyle) -> (r: bool)
    ensures
        r == within_spec(style, path@, ancestor@),
{
    let p = key_chars(path, style);
    let a = key_chars(ancestor, style);
    if seq_equal(&p, &a) {
        return true;
    }
    if a.len() >= p.len() {
        return false;
    }
    let mut i: usize = 0;
    while i < a.len()
        invariant
            a@.len() < p@.len(),
            p@ == compare_key(style, path@),
            a@ == compare_key(style, ancestor@),
            p@ != a@,
            i <= a@.len(),
            forall|j: int| 0 <= j < i ==> p@[j] == a@[j],
        decreases a.len() - i,
    {
        if p[i] != a[i] {
            assert(p@.subrange(0, a@.len() as int)[i as int] != a@[i as int]);
            return false;
        }
        i = i + 1;
    }
    assert(p@.subrange(0, a@.len() as int) =~= a@);
    match style {
        PathStyle::Unix => p[a.len()] == '/',
        PathStyle::Windows => p[a.len()] == '\\',
    }
}

/// What `Path::is_absolute` says of a path: on Unix, that it starts at the
/// root; on Windows, that it has both a prefix and a root (or is a
/// verbatim path).
pub uninterp spec fn path_is_absolute(path: Seq<char>) -> bool;

/// `Path::is_absolute` of a path held as text.
#[verifier::external_body]
pub(crate) fn is_absolute_path(path: &str) -> (r: bool)
    ensures
        r == path_is_absolute(path@),
{
    std::path::Path::new(path).is_absolute()
}

/// A location list entry is a non-empty absolute path once trimmed.
pub open spec fn location_acceptable(p: Seq<char>) -> bool {
    trim_spec(p).len() > 0 && path_is_absolute(trim_spec(p))
}

/// Adds one normalized location to a list that holds no location inside
/// another: it is dropped if already covered, and replaces those it covers.
pub open spec fn add_location(style: PathStyle, list: Seq<Seq<char>>, path: Seq<char>) -> Seq<Seq<char>> {
    if exists|j: int| 0 <= j < list.len() && within_spec(style, path, #[trigger] list[j]) {
        list
    } else {
        list.filter(|e: Seq<char>| !within_spec(style, e, path)).push(path)
    }
}

/// The normalized locations of the first `n` entries.
pub open spec fn locations_prefix(style: PathStyle, paths: Seq<Seq<char>>, n: int) -> Seq<Seq<char>>
    decreases n,
{
    if n <= 0 {
        Seq::empty()
    } else {
        add_location(style, locations_prefix(style, paths, n - 1), lexical_spec(style, trim_spec(paths[n - 1])))
    }
}

/// Index of the first entry at or after `k` that is not an absolute path, if any.
pub open spec fn first_bad_location_from(paths: Seq<Seq<char>>, k: int) -> Option<int>
    decreases paths.len() - k,
{
    if k < 0 || k >= paths.len() {
        None
    } else if !location_acceptable(paths[k]) {
        Some(k)
    } else {
        first_bad_location_from(paths, k + 1)
    }
}

pub open spec fn first_bad_location(paths: Seq<Seq<char>>) -> Option<int> {
    first_bad_location_from(paths, 0)
}

pub open spec fn location_count_failure(field: Seq<char>, maximum: nat) -> FailureView {
    failure("invalid_session"@, field + " may contain at most "@ + decimal_nat(maximum) + " paths"@, field_details(field))
}

pub open spec fn location_path_failure(field: Seq<char>, index: int) -> FailureView {
    failure(
        "invalid_session"@,
        "Location exclusions must be non-empty absolute filesystem paths"@,
        field_details(field).push(("pathIndex"@, DetailView::Integer(index))),
    )
}

fn remove_within(list: Vec<String>, path: &str, style: PathStyle) -> (r: Vec<String>)
    ensures
        r@.map_values(|s: String| s@) == list@.map_values(|s: String| s@).filter(|e: Seq<char>| !within_spec(style, e, path@)),
{
    let mut out: Vec<String> = Vec::new();
    let mut i: usize = 0;
    let ghost all = list@.map_values(|s: String| s@);
    let ghost keep = |e: Seq<char>| !within_spec(style, e, path@);
    while i < list.len()
        invariant
            i <= list@.len(),
            all == list@.map_values(|s: String| s@),
            keep == (|e: Seq<char>| !within_spec(style, e, path@)),
            out@.map_values(|s: String| s@) == all.subrange(0, i as int).filter(keep),
        decreases list.len() - i,
    {
        let e = &list[i];
        let ghost prefix = all.subrange(0, i + 1);
        assert(prefix.drop_last() =~= all.subrange(0, i as int));
        assert(prefix.last() == e@);
        reveal_with_fuel(Seq::<Seq<char>>::filter, 1);
        if !path_is_within(e.as_str(), path, style) {
            out.push(e.clone());
            assert(out@.map_values(|s: String| s@) =~= all.subrange(0, i as int).filter(keep).push(e@));
        }
        i = i + 1;
    }
    assert(all.subrange(0, list@.len() as int) =~= all);
    out
}

/// Checks and normalizes a list of excluded locations: at most `maximum`
/// entries, each a non-empty absolute path once trimmed; trailing
/// separators are dropped, and a location inside another listed one is
/// dropped in favour of the outer one.
pub fn validate_location_paths(paths: Vec<String>, maximum: usize, field: &str, style: PathStyle) -> (r: Result<
    Vec<String>,
    ProtocolFailure,
>)
    ensures
        r is Ok <==> (paths@.len() <= maximum && first_bad_location(paths@.map_values(|s: String| s@)) is None),
        paths@.len() > maximum ==> (r matches Err(f) && f@ =~~= location_count_failure(field@, maximum as nat)),
        paths@.len() <= maximum ==> (first_bad_location(paths@.map_values(|s: String| s@)) matches Some(i) ==> (r matches Err(f)
            && f@ =~~= location_path_failure(field@, i))),
        r matches Ok(v) ==> v@.map_values(|s: String| s@) == locations_prefix(
            style,
            paths@.map_values(|s: String| s@),
            paths@.len() as int,
        ),
{
    let ghost all = paths@.map_values(|s: String| s@);
    if paths.len() > maximum {
        let mut message = string_from(field);
        message.append(" may contain at most ");
        let count = u64_to_decimal(maximum as u64);
        message.append(count.as_str());
        message.append(" paths");
        let f = ProtocolFailure { code: string_from("invalid_session"), message, retryable: false, details: Vec::new() };
        assert(f@.details =~= Seq::<(Seq<char>, DetailView)>::empty());
        assert(f@.message =~= field@ + " may contain at most "@ + decimal_nat(maximum as nat) + " paths"@);
        let g = f.with_field(field);
        assert(g@.details =~~= field_details(field@));
        return Err(g);
    }
    let mut normalized: Vec<String> = Vec::new();
    let mut i: usize = 0;
    while i < paths.len()
        invariant
            i <= paths@.len(),
            paths@.len() <= maximum,
            all == paths@.map_values(|s: String| s@),
            first_bad_location(all) == first_bad_location_from(all, i as int),
            normalized@.map_values(|s: String| s@) == locations_prefix(style, all, i as int),
        decreases paths.len() - i,
    {
        let trimmed = trim_chars(&chars_of(paths[i].as_str()));
        assert(all[i as int] == paths@[i as int]@);
        if trimmed.len() == 0 || !is_absolute_path(string_of(&trimmed).as_str()) {
            assert(!location_acceptable(all[i as int]));
            let f = ProtocolFailure::new("invalid_session", "Location exclusions must be non-empty absolute filesystem paths").with_field(
                field,
            ).with_detail("pathIndex", DetailValue::Count(i));
            return Err(f);
        }
        let path = lexical_path(string_of(&trimmed).as_str(), style);
        let ghost before = normalized@.map_values(|s: String| s@);
        let mut covered = false;
        let mut k: usize = 0;
        while k < normalized.len()
            invariant
                k <= normalized@.len(),
                before == normalized@.map_values(|s: String| s@),
                covered == exists|j: int| 0 <= j < k && within_spec(style, path@, #[trigger] before[j]),
            decreases normalized.len() - k,
        {
            assert(before[k as int] == normalized@[k as int]@);
            if path_is_within(path.as_str(), normalized[k].as_str(), style) {
                covered = true;
            }
            k = k + 1;
        }
        if !covered {
            let mut kept = remove_within(normalized, path.as_str(), style);
            kept.push(path);
            normalized = kept;
            assert(normalized@.map_values(|s: String| s@) =~= before.filter(|e: Seq<char>| !within_spec(style, e, path@)).push(path@));
        }
        assert(path@ == lexical_spec(style, trim_spec(all[i as int])));
        i = i + 1;
    }
    Ok(normalized)
}

/// The texts of a path's components, as `Path::components` yields them.
pub open spec fn components(s: Seq<char>) -> Seq<Seq<char>> {
    path_components(s).map_values(|c: (bool, Seq<char>)| c.1)
}

/// `Path::starts_with`: the components of `base` begin the components of
/// `path`, compared by their text.
pub open spec fn path_starts_with(path: Seq<char>, base: Seq<char>) -> bool {
    let a = components(path);
    let b = components(base);
    b.len() <= a.len() && a.subrange(0, b.len() as int) == b
}

/// Whether the component texts of `a` begin with those of `b`.
fn components_start_with(a: &Vec<(bool, String)>, b: &Vec<(bool, String)>) -> (r: bool)
    ensures
        ({
            let av = a@.map_values(|c: (bool, String)| c.1@);
            let bv = b@.map_values(|c: (bool, String)| c.1@);
            r == (bv.len() <= av.len() && av.subrange(0, bv.len() as int) == bv)
        }),
{
    let ghost av = a@.map_values(|c: (bool, String)| c.1@);
    let ghost bv = b@.map_values(|c: (bool, String)| c.1@);
    if b.len() > a.len() {
        return false;
    }
    let mut i: usize = 0;
    while i < b.len()
        invariant
            b@.len() <= a@.len(),
            i <= b@.len(),
            av == a@.map_values(|c: (bool, String)| c.1@),
            bv == b@.map_values(|c: (bool, String)| c.1@),
            forall|j: int| 0 <= j < i ==> av[j] == bv[j],
        decreases b.len() - i,
    {
        assert(av[i as int] == a@[i as int].1@ && bv[i as int] == b@[i as int].1@);
        if !crate::failure::str_equals(a[i].1.as_str(), b[i].1.as_str()) {
            assert(av.subrange(0, bv.len() as int)[i as int] != bv[i as int]);
            return false;
        }
        i = i + 1;
    }
    assert(av.subrange(0, bv.len() as int) =~= bv);
    true
}

/// `Path::starts_with` over std's components of both paths.
pub fn starts_with_path(path: &str, base: &str) -> (r: bool)
    ensures
        r == path_starts_with(path@, base@),
{
    let a = components_of(path);
    let b = components_of(base);
    proof {
        assert(a@.map_values(|c: (bool, String)| c.1@) =~= components(path@));
        assert(b@.map_values(|c: (bool, String)| c.1@) =~= components(base@));
    }
    components_start_with(&a, &b)
}

/// Whether `dir` lies within (or is) one of the listed directories.
pub open spec fn covered_by_any(result: Seq<Seq<char>>, dir: Seq<char>) -> bool {
    exists|j: int| 0 <= j < result.len() && path_starts_with(dir, #[trigger] result[j])
}

/// The listed directories that do not lie within `dir`, in order.
pub open spec fn remove_under(s: Seq<Seq<char>>, dir: Seq<char>) -> Seq<Seq<char>>
    decreases s.len(),
{
    if s.len() == 0 {
        Seq::empty()
    } else if path_starts_with(s.last(), dir) {
        remove_under(s.drop_last(), dir)
    } else {
        remove_under(s.drop_last(), dir).push(s.last())
    }
}

/// One step of `non_overlapping_directories`: a directory within a listed
/// one is dropped; otherwise the listed ones within it give way and it is
/// appended.
pub open spec fn overlap_step(result: Seq<Seq<char>>, dir: Seq<char>) -> Seq<Seq<char>> {
    if covered_by_any(result, dir) {
        result
    } else {
        remove_under(result, dir).push(dir)
    }
}

pub open spec fn non_overlapping_prefix(dirs: Seq<Seq<char>>, n: int) -> Seq<Seq<char>>
    decreases n,
{
    if n <= 0 {
        Seq::empty()
    } else {
        overlap_step(non_overlapping_prefix(dirs, n - 1), dirs[n - 1])
    }
}

/// No listed directory lies within (or repeats) another.
pub open spec fn nest_free(s: Seq<Seq<char>>) -> bool {
    forall|i: int, j: int| 0 <= i < s.len() && 0 <= j < s.len() && i != j ==> !path_starts_with(#[trigger] s[i], #[trigger] s[j])
}

proof fn lemma_starts_with_reflexive(a: Seq<char>)
    ensures
        path_starts_with(a, a),
{
    assert(components(a).subrange(0, components(a).len() as int) =~= components(a));
}

proof fn lemma_starts_with_transitive(a: Seq<char>, b: Seq<char>, c: Seq<char>)
    requires
        path_starts_with(a, b),
        path_starts_with(b, c),
    ensures
        path_starts_with(a, c),
{
    let (ca, cb, cc) = (components(a), components(b), components(c));
    assert(ca.subrange(0, cc.len() as int) =~= cb.subrange(0, cc.len() as int));
}

proof fn lemma_remove_under(s: Seq<Seq<char>>, dir: Seq<char>)
    ensures
        forall|k: int|
            0 <= k < remove_under(s, dir).len() ==> exists|m: int|
                0 <= m < s.len() && s[m] == #[trigger] remove_under(s, dir)[k],
        forall|k: int| 0 <= k < remove_under(s, dir).len() ==> !path_starts_with(#[trigger] remove_under(s, dir)[k], dir),
        forall|m: int| 0 <= m < s.len() && !path_starts_with(#[trigger] s[m], dir) ==> remove_under(s, dir).contains(s[m]),
        nest_free(s) ==> nest_free(remove_under(s, dir)),
    decreases s.len(),
{
    if s.len() > 0 {
        let p = s.drop_last();
        lemma_remove_under(p, dir);
        let rp = remove_under(p, dir);
        let r = remove_under(s, dir);
        assert forall|k: int| 0 <= k < r.len() implies exists|m: int| 0 <= m < s.len() && s[m] == #[trigger] r[k] by {
            if k < rp.len() {
                let m = choose|m: int| 0 <= m < p.len() && p[m] == rp[k];
                assert(s[m] == r[k]);
            } else {
                assert(s[s.len() - 1] == r[k]);
            }
        }
        assert forall|m: int| 0 <= m < s.len() && !path_starts_with(#[trigger] s[m], dir) implies r.contains(s[m]) by {
            if m < s.len() - 1 {
                assert(p[m] == s[m]);
                let t = choose|t: int| 0 <= t < rp.len() && rp[t] == p[m];
                assert(r[t] == rp[t]);
            } else {
                assert(r[r.len() - 1] == s[m]);
            }
        }
        if nest_free(s) {
            assert forall|i: int, j: int| 0 <= i < p.len() && 0 <= j < p.len() && i != j implies !path_starts_with(
                #[trigger] p[i],
                #[trigger] p[j],
            ) by {
                assert(p[i] == s[i] && p[j] == s[j]);
            }
            if !path_starts_with(s.last(), dir) {
                assert forall|i: int, j: int| 0 <= i < r.len() && 0 <= j < r.len() && i != j implies !path_starts_with(
                    #[trigger] r[i],
                    #[trigger] r[j],
                ) by {
                    if i < rp.len() && j < rp.len() {
                        assert(r[i] == rp[i] && r[j] == rp[j]);
                    } else if i < rp.len() {
                        let m = choose|m: int| 0 <= m < p.len() && p[m] == rp[i];
                        assert(s[m] == r[i] && r[j] == s[s.len() - 1]);
                    } else {
                        let m = choose|m: int| 0 <= m < p.len() && p[m] == rp[j];
                        assert(s[m] == r[j] && r[i] == s[s.len() - 1]);
                    }
                }
            }
        }
    }
}

/// What `non_overlapping_directories` gives: every kept directory is one
/// of the inputs, no kept directory lies within (or repeats) another, and
/// every input lies within a kept one.
pub open spec fn reduced_directories(dirs: Seq<Seq<char>>, r: Seq<Seq<char>>) -> bool {
    &&& forall|k: int| 0 <= k < r.len() ==> dirs.contains(#[trigger] r[k])
    &&& nest_free(r)
    &&& forall|t: int| 0 <= t < dirs.len() ==> covered_by_any(r, #[trigger] dirs[t])
}

/// The reduced directories of the first `n` inputs are the inputs' reduction.
pub proof fn lemma_non_overlapping_prefix(dirs: Seq<Seq<char>>, n: int)
    requires
        0 <= n <= dirs.len(),
    ensures
        reduced_directories(dirs.subrange(0, n), non_overlapping_prefix(dirs, n)),
    decreases n,
{
    let r = non_overlapping_prefix(dirs, n);
    let d = dirs.subrange(0, n);
    if n > 0 {
        lemma_non_overlapping_prefix(dirs, n - 1);
        let prev = non_overlapping_prefix(dirs, n - 1);
        let pd = dirs.subrange(0, n - 1);
        let dir = dirs[n - 1];
        assert forall|t: int| 0 <= t < pd.len() implies d[t] == #[trigger] pd[t] by {}
        if covered_by_any(prev, dir) {
            assert forall|k: int| 0 <= k < r.len() implies d.contains(#[trigger] r[k]) by {
                let t = choose|t: int| 0 <= t < pd.len() && pd[t] == r[k];
                assert(d[t] == r[k]);
            }
            assert forall|t: int| 0 <= t < d.len() implies covered_by_any(r, #[trigger] d[t]) by {
                if t < n - 1 {
                    assert(d[t] == pd[t]);
                }
            }
        } else {
            lemma_remove_under(prev, dir);
            let ru = remove_under(prev, dir);
            assert forall|k: int| 0 <= k < r.len() implies d.contains(#[trigger] r[k]) by {
                if k < ru.len() {
                    let m = choose|m: int| 0 <= m < prev.len() && prev[m] == #[trigger] ru[k];
                    let t = choose|t: int| 0 <= t < pd.len() && pd[t] == prev[m];
                    assert(d[t] == r[k]);
                } else {
                    assert(d[n - 1] == r[k]);
                }
            }
            assert forall|i: int, j: int| 0 <= i < r.len() && 0 <= j < r.len() && i != j implies !path_starts_with(
                #[trigger] r[i],
                #[trigger] r[j],
            ) by {
                if i < ru.len() && j < ru.len() {
                    assert(r[i] == ru[i] && r[j] == ru[j]);
                } else if i < ru.len() {
                    assert(r[i] == ru[i] && r[j] == dir);
                    let m = choose|m: int| 0 <= m < prev.len() && prev[m] == #[trigger] ru[i];
                    assert(!path_starts_with(dir, prev[m]));
                } else {
                    assert(r[j] == ru[j] && r[i] == dir);
                    let m = choose|m: int| 0 <= m < prev.len() && prev[m] == #[trigger] ru[j];
                    assert(!path_starts_with(dir, prev[m]));
                }
            }
            assert forall|t: int| 0 <= t < d.len() implies covered_by_any(r, #[trigger] d[t]) by {
                if t < n - 1 {
                    assert(d[t] == pd[t]);
                    let j = choose|j: int| 0 <= j < prev.len() && path_starts_with(pd[t], #[trigger] prev[j]);
                    if path_starts_with(prev[j], dir) {
                        lemma_starts_with_transitive(pd[t], prev[j], dir);
                        assert(r[r.len() - 1] == dir);
                    } else {
                        let k = choose|k: int| 0 <= k < ru.len() && ru[k] == prev[j];
                        assert(r[k] == ru[k]);
                    }
                } else {
                    lemma_starts_with_reflexive(dir);
                    assert(r[r.len() - 1] == dir);
                }
            }
        }
    }
}

fn drop_nested(list: Vec<String>, dir: &String) -> (r: Vec<String>)
    ensures
        r@.map_values(|s: String| s@) == remove_under(list@.map_values(|s: String| s@), dir@),
{
    let mut out: Vec<String> = Vec::new();
    let mut i: usize = 0;
    let ghost all = list@.map_values(|s: String| s@);
    while i < list.len()
        invariant
            i <= list@.len(),
            all == list@.map_values(|s: String| s@),
            out@.map_values(|s: String| s@) == remove_under(all.subrange(0, i as int), dir@),
        decreases list.len() - i,
    {
        let e = &list[i];
        let ghost prefix = all.subrange(0, i + 1);
        assert(prefix.drop_last() =~= all.subrange(0, i as int));
        assert(prefix.last() == e@);
        if !starts_with_path(e.as_str(), dir.as_str()) {
            out.push(e.clone());
            assert(out@.map_values(|s: String| s@) =~= remove_under(all.subrange(0, i as int), dir@).push(e@));
        }
        i = i + 1;
    }
    assert(all.subrange(0, list@.len() as int) =~= all);
    out
}

/// Reduces a list of directories, one at a time: a directory within one
/// already kept is dropped; otherwise the kept ones within it give way and
/// it is kept. No kept directory then lies within another, and every input
/// lies within a kept one.
pub fn non_overlapping_directories(dirs: Vec<String>) -> (r: Vec<String>)
    ensures
        r@.map_values(|s: String| s@) == non_overlapping_prefix(dirs@.map_values(|s: String| s@), dirs@.len() as int),
        reduced_directories(dirs@.map_values(|s: String| s@), r@.map_values(|s: String| s@)),
{
    let ghost all = dirs@.map_values(|s: String| s@);
    let mut result: Vec<String> = Vec::new();
    let mut i: usize = 0;
    while i < dirs.len()
        invariant
            i <= dirs@.len(),
            all == dirs@.map_values(|s: String| s@),
            result@.map_values(|s: String| s@) == non_overlapping_prefix(all, i as int),
        decreases dirs.len() - i,
    {
        let dir = &dirs[i];
        assert(all[i as int] == dir@);
        let ghost before = result@.map_values(|s: String| s@);
        let mut covered = false;
        let mut k: usize = 0;
        while k < result.len()
            invariant
                k <= result@.len(),
                before == result@.map_values(|s: String| s@),
                covered ==> covered_by_any(before, dir@),
                !covered ==> forall|j: int| 0 <= j < k ==> !path_starts_with(dir@, #[trigger] before[j]),
            decreases result.len() - k,
        {
            assert(before[k as int] == result@[k as int]@);
            if starts_with_path(dir.as_str(), result[k].as_str()) {
                covered = true;
            }
            k = k + 1;
        }
        if !covered {
            let mut kept = drop_nested(result, dir);
            let ghost removed = kept@.map_values(|s: String| s@);
            kept.push(dir.clone());
            assert(kept@.map_values(|s: String| s@) =~= removed.push(dir@));
            result = kept;
        }
        assert(result@.map_values(|s: String| s@) =~= overlap_step(before, dir@));
        i = i + 1;
    }
    assert(all.subrange(0, dirs@.len() as int) =~= all);
    proof {
        lemma_non_overlapping_prefix(all, all.len() as int);
    }
    result
}

/// `compress_file_path`: paths longer than 100 bytes keep their first 48
/// and last 49 bytes around `...`.
pub open spec fn compressed_bytes(b: Seq<u8>) -> Seq<u8> {
    if b.len() <= 100 {
        b
    } else {
        b.subrange(0, 48) + seq![46u8, 46u8, 46u8] + b.subrange(b.len() - 49, b.len() as int)
    }
}

/// Shortens a path for a one-line status display. The cut points must fall
/// on character boundaries.
pub fn compress_file_path(path: &str) -> (r: String)
    requires
        encode_utf8(path@).len() > 100 ==> is_char_boundary(encode_utf8(path@), 48) && is_char_boundary(
            encode_utf8(path@),
            encode_utf8(path@).len() - 49,
        ),
    ensures
        encode_utf8(r@) == compressed_bytes(encode_utf8(path@)),
{
    assert(path.spec_bytes() == encode_utf8(path@));
    let len = path.as_bytes().len();
    if len <= 100 {
        let r = path.to_owned();
        assert(encode_utf8(path@).len() <= 100);
        assert(r@ == path@);
        return r;
    }
    let (head, _) = path.split_at(48);
    let (_, tail) = path.split_at(len - 49);
    let mut out = head.to_owned();
    out.append("...");
    out.append(tail);
    proof {
        vstd::utf8::encode_utf8_decode_utf8(head@);
        lemma_encode_utf8_concat(head@, "..."@);
        lemma_encode_utf8_concat(head@ + "..."@, tail@);
        reveal_strlit("...");
        assert(encode_utf8("..."@) =~= seq![46u8, 46u8, 46u8]) by {
            vstd::utf8::is_ascii_chars_encode_utf8("..."@);
        }
    }
    out
}

/// UTF-8 encoding distributes over concatenation.
proof fn lemma_encode_utf8_concat(a: Seq<char>, b: Seq<char>)
    ensures
        encode_utf8(a + b) == encode_utf8(a) + encode_utf8(b),
    decreases a.len(),
{
    if a.len() == 0 {
        assert(a + b =~= b);
        assert(encode_utf8(a) =~= Seq::<u8>::empty());
        assert(encode_utf8(a) + encode_utf8(b) =~= encode_utf8(b));
    } else {
        lemma_encode_utf8_concat(a.drop_first(), b);
        assert((a + b).drop_first() =~= a.drop_first() + b);
        assert((a + b)[0] == a[0]);
    }
}

} // verus!
