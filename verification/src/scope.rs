//! The scope of a preference-rule preview: the whole completed run, an
//! explicit set of duplicate groups, or the groups that a filter selects,
//! together with the canonical JSON signature that binds cursors to it.
use vstd::prelude::*;
use crate::choices::{
    allowed_failure, extension_match_name, extension_match_name_spec, parse_path_match, path_match_name,
    path_match_name_spec, DuplicateFileExtensionMatchMode, DuplicateFilePathMatchMode,
};
use crate::cursor::{json_string, push_json_string, push_str};
use crate::failure::{failure, field_details, str_equals, string_from, texts, DetailValue, DetailView, FailureView, ProtocolFailure};
use crate::text::{decimal_int, i64_to_decimal, lowercase_of, parse_i64_spec, string_of};
use crate::validate::{
    decimal_failure, default_extension_match, default_minimum_copy_count, default_minimum_size, default_path_match,
    extension_acceptable, extension_failure, group_path_filter_failure, group_path_filter_limit, group_path_filter_spec,
    normalize_extension_filter, normalize_extension_match, option_view, parse_non_negative_decimal,
    validate_group_path_filter, validate_minimum_copy_count,
};

verus! {

/// The filter fields of a duplicate-file group request, as sent.
#[derive(Debug, Clone)]
pub struct DuplicateFileGroupFilterParameters {
    pub search: Option<String>,
    pub path_match: String,
    pub extension: Option<String>,
    pub extension_match: String,
    pub minimum_size: String,
    pub minimum_copy_count: i64,
    pub across_drives: bool,
    pub selected_root: Option<String>,
    pub selected_drive: Option<String>,
}

/// Whether every filter field holds its default value.
pub open spec fn filter_is_default(f: DuplicateFileGroupFilterParameters) -> bool {
    &&& f.search is None
    &&& f.path_match@ == "substring"@
    &&& f.extension is None
    &&& f.extension_match@ == "any"@
    &&& f.minimum_size@ == "0"@
    &&& f.minimum_copy_count == 2
    &&& !f.across_drives
    &&& f.selected_root is None
    &&& f.selected_drive is None
}

impl Default for DuplicateFileGroupFilterParameters {
    fn default() -> (r: DuplicateFileGroupFilterParameters)
        ensures
            filter_is_default(r),
            r.search is None,
            r.path_match@ == "substring"@,
            r.extension is None,
            r.extension_match@ == "any"@,
            r.minimum_size@ == "0"@,
            r.minimum_copy_count == 2,
            !r.across_drives,
            r.selected_root is None,
            r.selected_drive is None,
    {
        DuplicateFileGroupFilterParameters {
            search: None,
            path_match: default_path_match(),
            extension: None,
            extension_match: default_extension_match(),
            minimum_size: default_minimum_size(),
            minimum_copy_count: default_minimum_copy_count(),
            across_drives: false,
            selected_root: None,
            selected_drive: None,
        }
    }
}

/// A filter is the default filter exactly when every field holds the
/// value `DuplicateFileGroupFilterParameters::default()` gives it: no
/// search, substring path matching, no extension, `any` extension matching,
/// minimum size `0`, minimum copy count 2, not across drives, and no
/// selected root or drive. Changing any one field makes it non-default.
pub proof fn lemma_default_filter_is_every_default_field(f: DuplicateFileGroupFilterParameters)
    ensures
        filter_is_default(f) <==> (f.search is None && f.path_match@ == "substring"@ && f.extension is None
            && f.extension_match@ == "any"@ && f.minimum_size@ == "0"@ && f.minimum_copy_count == 2 && !f.across_drives
            && f.selected_root is None && f.selected_drive is None),
{
}

/// A `completed_run` preview takes neither group IDs nor filter fields: it
/// is accepted exactly when no group ID is given and every filter field
/// holds its default value (minimum copy count 2 among them), and refused
/// with the completed-run scope failure otherwise. A `selected_sets`
/// preview with an acceptable number of IDs and any non-default filter
/// field is refused with the selected-sets filter failure.
pub proof fn lemma_fixed_scopes_refuse_filter_fields(p: PreferencePreviewScopeParameters)
    ensures
        p.kind@ == "completed_run"@ ==> (preview_scope_failure(p) is None <==> (p.group_ids@.len() == 0 && p.filter.search is None
            && p.filter.path_match@ == "substring"@ && p.filter.extension is None && p.filter.extension_match@ == "any"@
            && p.filter.minimum_size@ == "0"@ && p.filter.minimum_copy_count == 2 && !p.filter.across_drives
            && p.filter.selected_root is None && p.filter.selected_drive is None)),
        p.kind@ == "completed_run"@ && preview_scope_failure(p) is Some ==> preview_scope_failure(p) == Some(
            scope_failure("completed_run scope does not accept groupIds or filter fields"@),
        ),
        p.kind@ == "selected_sets"@ && 1 <= p.group_ids@.len() <= 500 && !(p.filter.search is None
            && p.filter.path_match@ == "substring"@ && p.filter.extension is None && p.filter.extension_match@ == "any"@
            && p.filter.minimum_size@ == "0"@ && p.filter.minimum_copy_count == 2 && !p.filter.across_drives
            && p.filter.selected_root is None && p.filter.selected_drive is None) ==> preview_scope_failure(p) == Some(
            scope_failure("selected_sets scope does not accept filter fields"@),
        ),
{
    reveal_strlit("completed_run");
    reveal_strlit("selected_sets");
    assert("completed_run"@[0] != "selected_sets"@[0]);
}

/// Whether a filter equals the default filter, field by field.
pub fn is_default_filter(f: &DuplicateFileGroupFilterParameters) -> (r: bool)
    ensures
        r == filter_is_default(*f),
{
    f.search.is_none() && str_equals(f.path_match.as_str(), "substring") && f.extension.is_none()
        && str_equals(f.extension_match.as_str(), "any") && str_equals(f.minimum_size.as_str(), "0")
        && f.minimum_copy_count == 2 && !f.across_drives && f.selected_root.is_none() && f.selected_drive.is_none()
}

/// The scope of a preview request, as sent.
#[derive(Debug, Clone)]
pub struct PreferencePreviewScopeParameters {
    pub kind: String,
    pub group_ids: Vec<i64>,
    pub filter: DuplicateFileGroupFilterParameters,
}

/// A validated duplicate-file group filter.
#[derive(Debug, Clone)]
pub struct DuplicateFileGroupFilter {
    pub search: Option<String>,
    pub path_match: DuplicateFilePathMatchMode,
    pub extension_key: Option<String>,
    pub extension_match: DuplicateFileExtensionMatchMode,
    pub minimum_size: i64,
    pub minimum_copy_count: i64,
    pub across_drives: bool,
    pub selected_root: Option<String>,
    pub selected_drive: Option<String>,
}

pub struct GroupFilterView {
    pub search: Option<Seq<char>>,
    pub path_match: DuplicateFilePathMatchMode,
    pub extension_key: Option<Seq<char>>,
    pub extension_match: DuplicateFileExtensionMatchMode,
    pub minimum_size: int,
    pub minimum_copy_count: int,
    pub across_drives: bool,
    pub selected_root: Option<Seq<char>>,
    pub selected_drive: Option<Seq<char>>,
}

impl View for DuplicateFileGroupFilter {
    type V = GroupFilterView;

    open spec fn view(&self) -> GroupFilterView {
        GroupFilterView {
            search: option_view(self.search),
            path_match: self.path_match,
            extension_key: option_view(self.extension_key),
            extension_match: self.extension_match,
            minimum_size: self.minimum_size as int,
            minimum_copy_count: self.minimum_copy_count as int,
            across_drives: self.across_drives,
            selected_root: option_view(self.selected_root),
            selected_drive: option_view(self.selected_drive),
        }
    }
}

/// A validated preview scope.
#[derive(Debug, Clone)]
pub enum PreferencePreviewScope {
    CompletedRun,
    SelectedSets(Vec<i64>),
    CurrentFilter(DuplicateFileGroupFilter),
}

pub open spec fn scope_failure(message: Seq<char>) -> FailureView {
    failure("invalid_scope"@, message, seq![])
}

pub open spec fn group_count_failure() -> FailureView {
    failure(
        "invalid_scope"@,
        "selected_sets scope requires 1 to 500 groupIds"@,
        field_details("scope.groupIds"@).push(("minimum"@, DetailView::Integer(1))).push(
            ("maximum"@, DetailView::Integer(500)),
        ),
    )
}

pub open spec fn scope_kind_failure() -> FailureView {
    failure(
        "invalid_scope"@,
        "scope.kind must be selected_sets, current_filter, or completed_run"@,
        field_details("scope.kind"@).push(
            ("allowed"@, DetailView::Texts(seq!["selected_sets"@, "current_filter"@, "completed_run"@])),
        ),
    )
}

pub open spec fn has_duplicates(s: Seq<i64>) -> bool {
    exists|i: int, j: int| 0 <= i < j < s.len() && s[i] == s[j]
}

pub open spec fn strictly_increasing(s: Seq<i64>) -> bool {
    forall|i: int, j: int| 0 <= i < j < s.len() ==> s[i] < s[j]
}

/// The groups of a `selected_sets` scope: the same IDs, in ascending order.
pub open spec fn sorted_ids(ids: Seq<i64>, input: Seq<i64>) -> bool {
    &&& strictly_increasing(ids)
    &&& ids.len() == input.len()
    &&& forall|x: i64| ids.contains(x) <==> input.contains(x)
}

pub open spec fn selected_sets_failure(p: PreferencePreviewScopeParameters) -> Option<FailureView> {
    let ids = p.group_ids@;
    if !(1 <= ids.len() <= 500) {
        Some(group_count_failure())
    } else if !filter_is_default(p.filter) {
        Some(scope_failure("selected_sets scope does not accept filter fields"@))
    } else if exists|i: int| 0 <= i < ids.len() && ids[i] <= 0 {
        Some(scope_failure("scope.groupIds must contain positive IDs"@))
    } else if has_duplicates(ids) {
        Some(scope_failure("scope.groupIds must not contain duplicates"@))
    } else {
        None
    }
}

/// The path-match mode a filter asks for, once its name is known to be valid.
pub open spec fn requested_path_match(name: Seq<char>) -> DuplicateFilePathMatchMode {
    if name == "substring"@ {
        DuplicateFilePathMatchMode::Substring
    } else {
        DuplicateFilePathMatchMode::Exact
    }
}

pub open spec fn path_match_failure() -> FailureView {
    allowed_failure("filter.pathMatch must be substring or exact"@, "filter.pathMatch"@, seq!["substring"@, "exact"@])
}

pub open spec fn extension_match_failure() -> FailureView {
    allowed_failure("filter.extensionMatch must be any or all"@, "filter.extensionMatch"@, seq!["any"@, "all"@])
}

pub open spec fn copy_count_failure() -> FailureView {
    failure(
        "invalid_request"@,
        "filter.minimumCopyCount must be an integer greater than or equal to 2"@,
        field_details("filter.minimumCopyCount"@),
    )
}

/// The first check that a group filter fails, in the order the worker
/// applies them; `size_field` names the minimum size in its failure.
pub open spec fn group_filter_failure(f: DuplicateFileGroupFilterParameters, size_field: Seq<char>) -> Option<FailureView> {
    let name = f.path_match@;
    if !(name == "substring"@ || name == "exact"@) {
        Some(path_match_failure())
    } else {
        let requested = requested_path_match(name);
        let search = group_path_filter_spec(option_view(f.search), requested);
        if search matches Some(s) && s.len() > group_path_filter_limit(requested) {
            Some(group_path_filter_failure(requested))
        } else if f.extension matches Some(e) && !extension_acceptable(e@) {
            Some(extension_failure())
        } else if !(f.extension_match@ == "any"@ || f.extension_match@ == "all"@) {
            Some(extension_match_failure())
        } else if !(parse_i64_spec(f.minimum_size@) matches Some(n) && n >= 0) {
            Some(decimal_failure(size_field))
        } else if f.minimum_copy_count < 2 {
            Some(copy_count_failure())
        } else {
            None
        }
    }
}

/// The first check that the filter of a `current_filter` scope fails.
pub open spec fn current_filter_failure(f: DuplicateFileGroupFilterParameters) -> Option<FailureView> {
    group_filter_failure(f, "scope.filter.minimumSize"@)
}

/// A non-empty optional value.
pub open spec fn non_empty(o: Option<Seq<char>>) -> Option<Seq<char>> {
    match o {
        Some(s) => if s.len() > 0 {
            Some(s)
        } else {
            None
        },
        None => None,
    }
}

/// The filter that a valid group filter selects.
pub open spec fn group_filter_spec(f: DuplicateFileGroupFilterParameters) -> GroupFilterView {
    let requested = requested_path_match(f.path_match@);
    let search = group_path_filter_spec(option_view(f.search), requested);
    GroupFilterView {
        search,
        path_match: if search is None {
            DuplicateFilePathMatchMode::Substring
        } else {
            requested
        },
        extension_key: match f.extension {
            Some(e) => Some(lowercase_of(e@)),
            None => None,
        },
        extension_match: if f.extension is Some && f.extension_match@ == "all"@ {
            DuplicateFileExtensionMatchMode::AllMembers
        } else {
            DuplicateFileExtensionMatchMode::AnyMember
        },
        minimum_size: parse_i64_spec(f.minimum_size@).unwrap() as int,
        minimum_copy_count: f.minimum_copy_count as int,
        across_drives: f.across_drives,
        selected_root: non_empty(option_view(f.selected_root)),
        selected_drive: non_empty(option_view(f.selected_drive)),
    }
}

pub open spec fn json_bool(b: bool) -> Seq<char> {
    if b {
        "true"@
    } else {
        "false"@
    }
}

pub open spec fn json_optional_string(o: Option<Seq<char>>) -> Seq<char> {
    match o {
        Some(s) => json_string(s),
        None => "null"@,
    }
}

pub open spec fn text_or_empty(o: Option<Seq<char>>) -> Seq<char> {
    match o {
        Some(s) => s,
        None => Seq::empty(),
    }
}

/// The signature of a `current_filter` scope: a JSON object with its keys
/// in sorted order, absent texts written as empty strings.
pub open spec fn current_filter_signature(f: GroupFilterView) -> Seq<char> {
    "{\"acrossDrives\":"@ + json_bool(f.across_drives) + ",\"extension\":"@ + json_optional_string(f.extension_key)
        + ",\"extensionMatch\":"@ + json_string(extension_match_name_spec(f.extension_match))
        + ",\"kind\":\"current_filter\",\"minimumCopyCount\":"@ + decimal_int(f.minimum_copy_count)
        + ",\"minimumSize\":"@ + decimal_int(f.minimum_size) + ",\"pathMatch\":"@ + json_string(
        path_match_name_spec(f.path_match),
    ) + ",\"search\":"@ + json_string(text_or_empty(f.search)) + ",\"selectedDrive\":"@ + json_string(
        text_or_empty(f.selected_drive),
    ) + ",\"selectedRoot\":"@ + json_string(text_or_empty(f.selected_root)) + "}"@
}

/// A JSON array of integers, without the brackets.
pub open spec fn json_integer_items(ids: Seq<i64>) -> Seq<char>
    decreases ids.len(),
{
    if ids.len() == 0 {
        Seq::empty()
    } else if ids.len() == 1 {
        decimal_int(ids[0] as int)
    } else {
        json_integer_items(ids.drop_last()) + ","@ + decimal_int(ids.last() as int)
    }
}

/// The signature of a `selected_sets` scope.
pub open spec fn selected_sets_signature(ids: Seq<i64>) -> Seq<char> {
    "{\"groupIds\":["@ + json_integer_items(ids) + "],\"kind\":\"selected_sets\"}"@
}

pub open spec fn completed_run_signature() -> Seq<char> {
    "{\"kind\":\"completed_run\"}"@
}

/// The failure, if any, for a preview scope.
pub open spec fn preview_scope_failure(p: PreferencePreviewScopeParameters) -> Option<FailureView> {
    let kind = p.kind@;
    if kind == "completed_run"@ {
        if p.group_ids@.len() != 0 || !filter_is_default(p.filter) {
            Some(scope_failure("completed_run scope does not accept groupIds or filter fields"@))
        } else {
            None
        }
    } else if kind == "selected_sets"@ {
        selected_sets_failure(p)
    } else if kind == "current_filter"@ {
        if p.group_ids@.len() != 0 {
            Some(scope_failure("current_filter scope does not accept groupIds"@))
        } else {
            current_filter_failure(p.filter)
        }
    } else {
        Some(scope_kind_failure())
    }
}

/// Whether the scope's search text is handed over to the filter: it is taken
/// once a `current_filter` request has passed its first two checks.
pub open spec fn search_taken(p: PreferencePreviewScopeParameters) -> bool {
    p.kind@ == "current_filter"@ && p.group_ids@.len() == 0 && (p.filter.path_match@ == "substring"@
        || p.filter.path_match@ == "exact"@)
}


fn has_duplicate_ids(ids: &Vec<i64>) -> (r: bool)
    ensures
        r == has_duplicates(ids@),
{
    let mut j: usize = 0;
    while j < ids.len()
        invariant
            j <= ids@.len(),
            forall|a: int, b: int| 0 <= a < b < j ==> ids@[a] != ids@[b],
        decreases ids.len() - j,
    {
        let mut i: usize = 0;
        while i < j
            invariant
                i <= j < ids@.len(),
                forall|a: int, b: int| 0 <= a < b < j ==> ids@[a] != ids@[b],
                forall|a: int| 0 <= a < i ==> ids@[a] != ids@[j as int],
            decreases j - i,
        {
            if ids[i] == ids[j] {
                assert(0 <= i < j < ids@.len() && ids@[i as int] == ids@[j as int]);
                return true;
            }
            i = i + 1;
        }
        j = j + 1;
    }
    false
}

fn has_non_positive_id(ids: &Vec<i64>) -> (r: bool)
    ensures
        r == (exists|i: int| 0 <= i < ids@.len() && ids@[i] <= 0),
{
    let mut i: usize = 0;
    while i < ids.len()
        invariant
            i <= ids@.len(),
            forall|a: int| 0 <= a < i ==> ids@[a] > 0,
        decreases ids.len() - i,
    {
        if ids[i] <= 0 {
            assert(ids@[i as int] <= 0);
            return true;
        }
        i = i + 1;
    }
    false
}

/// The IDs in ascending order; they hold no repeats.
fn sort_distinct_ids(ids: &Vec<i64>) -> (r: Vec<i64>)
    requires
        !has_duplicates(ids@),
    ensures
        sorted_ids(r@, ids@),
{
    let mut out: Vec<i64> = Vec::new();
    let mut i: usize = 0;
    while i < ids.len()
        invariant
            i <= ids@.len(),
            !has_duplicates(ids@),
            strictly_increasing(out@),
            out@.len() == i,
            forall|x: i64| out@.contains(x) <==> ids@.subrange(0, i as int).contains(x),
        decreases ids.len() - i,
    {
        let x = ids[i];
        let ghost pre = ids@.subrange(0, i as int);
        let ghost pre1 = ids@.subrange(0, i + 1);
        assert(pre1 =~= pre.push(x));
        assert(!out@.contains(x)) by {
            if out@.contains(x) {
                assert(pre.contains(x));
                let k = choose|k: int| 0 <= k < pre.len() && pre[k] == x;
                assert(ids@[k] == ids@[i as int]);
            }
        }
        let mut j: usize = 0;
        while j < out.len() && out[j] < x
            invariant
                j <= out@.len(),
                forall|k: int| 0 <= k < j ==> out@[k] < x,
            decreases out.len() - j,
        {
            j = j + 1;
        }
        let ghost before = out@;
        assert(j < before.len() ==> before[j as int] > x) by {
            if j < before.len() {
                assert(before[j as int] >= x);
                assert(before[j as int] != x);
            }
        }
        out.insert(j, x);
        assert(out@ =~= before.subrange(0, j as int).push(x) + before.subrange(j as int, before.len() as int));
        assert forall|a: int, b: int| 0 <= a < b < out@.len() implies out@[a] < out@[b] by {
            if b < j {
                assert(out@[a] == before[a] && out@[b] == before[b]);
            } else if b == j {
                assert(out@[a] == before[a]);
            } else if a < j {
                assert(out@[a] == before[a] && out@[b] == before[b - 1]);
                assert(before[a] < before[j as int]);
                if (j as int) < b - 1 {
                    assert(before[j as int] < before[b - 1]);
                }
            } else if a == j {
                assert(out@[b] == before[b - 1]);
                if (j as int) < b - 1 {
                    assert(before[j as int] < before[b - 1]);
                }
            } else {
                assert(out@[a] == before[a - 1] && out@[b] == before[b - 1]);
            }
        }
        assert forall|y: i64| out@.contains(y) <==> pre1.contains(y) by {
            if out@.contains(y) {
                let k = choose|k: int| 0 <= k < out@.len() && out@[k] == y;
                if k == j {
                    assert(pre1[i as int] == x);
                } else {
                    if k < j {
                        assert(before[k] == y);
                    } else {
                        assert(before[k - 1] == y);
                    }
                    assert(before.contains(y));
                    assert(pre.contains(y));
                    let m = choose|m: int| 0 <= m < pre.len() && pre[m] == y;
                    assert(pre1[m] == y);
                }
            }
            if pre1.contains(y) {
                let m = choose|m: int| 0 <= m < pre1.len() && pre1[m] == y;
                if m == i {
                    assert(out@[j as int] == y);
                } else {
                    assert(pre[m] == y);
                    assert(pre.contains(y));
                    assert(before.contains(y));
                    let k = choose|k: int| 0 <= k < before.len() && before[k] == y;
                    if k < j {
                        assert(out@[k] == y);
                    } else {
                        assert(out@[k + 1] == y);
                    }
                }
            }
        }
        i = i + 1;
    }
    assert(ids@.subrange(0, ids@.len() as int) =~= ids@);
    out
}

fn push_integer_items(out: &mut Vec<char>, ids: &Vec<i64>)
    ensures
        final(out)@ == old(out)@ + json_integer_items(ids@),
{
    let ghost start = out@;
    let mut i: usize = 0;
    while i < ids.len()
        invariant
            i <= ids@.len(),
            out@ == start + json_integer_items(ids@.subrange(0, i as int)),
        decreases ids.len() - i,
    {
        let ghost sub = ids@.subrange(0, i + 1);
        assert(sub.drop_last() =~= ids@.subrange(0, i as int));
        assert(sub.last() == ids@[i as int]);
        if i > 0 {
            push_str(out, ",");
        }
        let d = i64_to_decimal(ids[i]);
        push_str(out, d.as_str());
        proof {
            if i == 0 {
                assert(json_integer_items(ids@.subrange(0, 0)) =~= Seq::<char>::empty());
            }
        }
        assert(out@ =~= start + json_integer_items(sub));
        i = i + 1;
    }
    assert(ids@.subrange(0, ids@.len() as int) =~= ids@);
}

fn push_optional_text(out: &mut Vec<char>, o: &Option<String>)
    ensures
        final(out)@ == old(out)@ + json_string(text_or_empty(option_view(*o))),
{
    match o {
        Some(s) => push_json_string(out, s.as_str()),
        None => {
            let ghost start = out@;
            push_str(out, "\"\"");
            proof {
                reveal_strlit("\"\"");
                assert(json_string(Seq::<char>::empty()) =~= seq!['"', '"']);
            }
            assert(out@ =~= start + json_string(text_or_empty(option_view(*o))));
        },
    }
}

/// The signature text of a `current_filter` scope.
pub fn current_filter_signature_text(f: &DuplicateFileGroupFilter) -> (r: String)
    ensures
        r@ == current_filter_signature(f@),
{
    let mut out: Vec<char> = Vec::new();
    push_str(&mut out, "{\"acrossDrives\":");
    if f.across_drives {
        push_str(&mut out, "true");
    } else {
        push_str(&mut out, "false");
    }
    push_str(&mut out, ",\"extension\":");
    match &f.extension_key {
        Some(e) => push_json_string(&mut out, e.as_str()),
        None => push_str(&mut out, "null"),
    }
    push_str(&mut out, ",\"extensionMatch\":");
    push_json_string(&mut out, extension_match_name(f.extension_match));
    push_str(&mut out, ",\"kind\":\"current_filter\",\"minimumCopyCount\":");
    let count = i64_to_decimal(f.minimum_copy_count);
    push_str(&mut out, count.as_str());
    push_str(&mut out, ",\"minimumSize\":");
    let size = i64_to_decimal(f.minimum_size);
    push_str(&mut out, size.as_str());
    push_str(&mut out, ",\"pathMatch\":");
    push_json_string(&mut out, path_match_name(f.path_match));
    push_str(&mut out, ",\"search\":");
    push_optional_text(&mut out, &f.search);
    push_str(&mut out, ",\"selectedDrive\":");
    push_optional_text(&mut out, &f.selected_drive);
    push_str(&mut out, ",\"selectedRoot\":");
    push_optional_text(&mut out, &f.selected_root);
    push_str(&mut out, "}");
    assert(out@ =~= current_filter_signature(f@));
    string_of(&out)
}

/// The signature text of a `selected_sets` scope.
pub fn selected_sets_signature_text(ids: &Vec<i64>) -> (r: String)
    ensures
        r@ == selected_sets_signature(ids@),
{
    let mut out: Vec<char> = Vec::new();
    push_str(&mut out, "{\"groupIds\":[");
    push_integer_items(&mut out, ids);
    push_str(&mut out, "],\"kind\":\"selected_sets\"}");
    assert(out@ =~= selected_sets_signature(ids@));
    string_of(&out)
}

fn optional_str(o: &Option<String>) -> (r: Option<&str>)
    ensures
        r is Some <==> o is Some,
        r matches Some(t) ==> o matches Some(s) && t@ == s@,
{
    match o {
        Some(s) => Some(s.as_str()),
        None => None,
    }
}

fn non_empty_text(o: &Option<String>) -> (r: Option<String>)
    ensures
        option_view(r) == non_empty(option_view(*o)),
{
    match o {
        Some(s) => if !s.as_str().is_empty() {
            Some(s.clone())
        } else {
            None
        },
        None => None,
    }
}


/// Validates the filter of a duplicate-file group request, as group pages
/// and `current_filter` scopes do. The search text is taken out of
/// `filter` once the path-match mode is known to be valid; `size_field`
/// names the minimum size in its failure.
pub fn validate_group_filter(filter: &mut DuplicateFileGroupFilterParameters, size_field: &str) -> (r: Result<
    DuplicateFileGroupFilter,
    ProtocolFailure,
>)
    ensures
        r is Ok <==> group_filter_failure(*old(filter), size_field@) is None,
        r matches Err(f) ==> group_filter_failure(*old(filter), size_field@) matches Some(g) && f@ =~~= g,
        r matches Ok(f) ==> f@ == group_filter_spec(*old(filter)),
        *final(filter) == (if old(filter).path_match@ == "substring"@ || old(filter).path_match@ == "exact"@ {
            DuplicateFileGroupFilterParameters { search: None, ..*old(filter) }
        } else {
            *old(filter)
        }),
{
    proof {
        reveal_strlit("substring");
        reveal_strlit("exact");
        reveal_strlit("any");
        reveal_strlit("all");
    }
    let requested = match parse_path_match(filter.path_match.as_str()) {
        Ok(m) => m,
        Err(f) => return Err(f),
    };
    assert("substring"@.len() != "exact"@.len());
    assert(requested == requested_path_match(filter.path_match@));
    let search_value = filter.search.take();
    let search = match validate_group_path_filter(search_value, requested) {
        Ok(s) => s,
        Err(f) => return Err(f),
    };
    let path_match = if search.is_none() {
        DuplicateFilePathMatchMode::Substring
    } else {
        requested
    };
    let extension = match normalize_extension_filter(optional_str(&filter.extension)) {
        Ok(e) => e,
        Err(f) => return Err(f),
    };
    let extension_match = match normalize_extension_match(filter.extension_match.as_str(), optional_str(&extension)) {
        Ok(m) => m,
        Err(f) => return Err(f),
    };
    let minimum_size = match parse_non_negative_decimal(filter.minimum_size.as_str(), size_field) {
        Ok(n) => n,
        Err(f) => return Err(f),
    };
    match validate_minimum_copy_count(filter.minimum_copy_count) {
        Ok(()) => {},
        Err(f) => return Err(f),
    }
    let selected_root = non_empty_text(&filter.selected_root);
    let selected_drive = non_empty_text(&filter.selected_drive);
    Ok(
        DuplicateFileGroupFilter {
            search,
            path_match,
            extension_key: extension,
            extension_match,
            minimum_size,
            minimum_copy_count: filter.minimum_copy_count,
            across_drives: filter.across_drives,
            selected_root,
            selected_drive,
        },
    )
}

/// Validates the scope of a preference preview and gives it with its
/// signature. `completed_run` takes no group IDs or filter; `selected_sets`
/// takes 1 to 500 distinct positive group IDs, which come back in ascending
/// order; `current_filter` takes a filter validated as group pages validate
/// theirs, its search text handed over from `scope`.
pub fn parse_preference_preview_scope(scope: &mut PreferencePreviewScopeParameters) -> (r: Result<
    (PreferencePreviewScope, String),
    ProtocolFailure,
>)
    ensures
        r is Ok <==> preview_scope_failure(*old(scope)) is None,
        r matches Err(f) ==> preview_scope_failure(*old(scope)) matches Some(g) && f@ =~~= g,
        r matches Ok((s, sig)) ==> match s {
            PreferencePreviewScope::CompletedRun => old(scope).kind@ == "completed_run"@ && sig@ == completed_run_signature(),
            PreferencePreviewScope::SelectedSets(ids) => old(scope).kind@ == "selected_sets"@ && sorted_ids(
                ids@,
                old(scope).group_ids@,
            ) && sig@ == selected_sets_signature(ids@),
            PreferencePreviewScope::CurrentFilter(f) => old(scope).kind@ == "current_filter"@ && f@ == group_filter_spec(
                old(scope).filter,
            ) && sig@ == current_filter_signature(f@),
        },
        *final(scope) == (if search_taken(*old(scope)) {
            PreferencePreviewScopeParameters {
                filter: DuplicateFileGroupFilterParameters { search: None, ..old(scope).filter },
                ..*old(scope)
            }
        } else {
            *old(scope)
        }),
{
    proof {
        reveal_strlit("completed_run");
        reveal_strlit("selected_sets");
        reveal_strlit("current_filter");
        assert("completed_run"@.len() != "current_filter"@.len());
        assert("selected_sets"@.len() != "current_filter"@.len());
        assert("completed_run"@[0] != "selected_sets"@[0]);
    }
    if str_equals(scope.kind.as_str(), "completed_run") {
        if scope.group_ids.len() != 0 || !is_default_filter(&scope.filter) {
            return Err(ProtocolFailure::new("invalid_scope", "completed_run scope does not accept groupIds or filter fields"));
        }
        let signature = string_from_literal_kind();
        return Ok((PreferencePreviewScope::CompletedRun, signature));
    }
    if str_equals(scope.kind.as_str(), "selected_sets") {
        let count = scope.group_ids.len();
        if !(1 <= count && count <= 500) {
            let f = ProtocolFailure::new("invalid_scope", "selected_sets scope requires 1 to 500 groupIds").with_field(
                "scope.groupIds",
            ).with_detail("minimum", DetailValue::Integer(1)).with_detail("maximum", DetailValue::Integer(500));
            return Err(f);
        }
        if !is_default_filter(&scope.filter) {
            return Err(ProtocolFailure::new("invalid_scope", "selected_sets scope does not accept filter fields"));
        }
        if has_non_positive_id(&scope.group_ids) {
            return Err(ProtocolFailure::new("invalid_scope", "scope.groupIds must contain positive IDs"));
        }
        if has_duplicate_ids(&scope.group_ids) {
            return Err(ProtocolFailure::new("invalid_scope", "scope.groupIds must not contain duplicates"));
        }
        let ids = sort_distinct_ids(&scope.group_ids);
        let signature = selected_sets_signature_text(&ids);
        return Ok((PreferencePreviewScope::SelectedSets(ids), signature));
    }
    if str_equals(scope.kind.as_str(), "current_filter") {
        if scope.group_ids.len() != 0 {
            return Err(ProtocolFailure::new("invalid_scope", "current_filter scope does not accept groupIds"));
        }
        let filter = match validate_group_filter(&mut scope.filter, "scope.filter.minimumSize") {
            Ok(f) => f,
            Err(f) => return Err(f),
        };
        let signature = current_filter_signature_text(&filter);
        return Ok((PreferencePreviewScope::CurrentFilter(filter), signature));
    }
    let allowed: [&str; 3] = ["selected_sets", "current_filter", "completed_run"];
    assert(allowed@ =~= seq!["selected_sets", "current_filter", "completed_run"]);
    assert(allowed@.map_values(|s: &str| s@) =~= seq!["selected_sets"@, "current_filter"@, "completed_run"@]);
    let f = ProtocolFailure::new("invalid_scope", "scope.kind must be selected_sets, current_filter, or completed_run").with_field(
        "scope.kind",
    ).with_detail("allowed", texts(&allowed));
    assert(f@ =~~= scope_kind_failure());
    Err(f)
}

fn string_from_literal_kind() -> (r: String)
    ensures
        r@ == completed_run_signature(),
{
    string_from("{\"kind\":\"completed_run\"}")
}

} // verus!
