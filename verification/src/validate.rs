//! Validation of request parameters: page bounds, operation ids, search
//! and extension filters, decimal fields and preference-rule definitions.
use vstd::prelude::*;
use crate::choices::{DuplicateFileExtensionMatchMode, DuplicateFilePathMatchMode, allowed_failure};
use crate::failure::{field_details, failure, str_equals, string_from, texts, DetailValue, DetailView, FailureView, ProtocolFailure};
use crate::text::{chars_of, lowercase_of, parse_i64, parse_i64_spec, string_of, to_lowercase, trim_chars, trim_spec};
use crate::paths::{is_absolute_path, path_is_absolute};

verus! {

pub const PROTOCOL_VERSION: u32 = 1;
pub const MAXIMUM_FRAME_BYTES: usize = 1_048_576;
pub const DEFAULT_PAGE_SIZE: i64 = 100;
pub const DEFAULT_RESULT_PAGE_SIZE: i64 = 200;
pub const MAXIMUM_PAGE_SIZE: i64 = 500;
pub const MAXIMUM_FILTER_CHARACTERS: usize = 512;
pub const MAXIMUM_EXACT_PATH_CHARACTERS: usize = 32_767;
pub const MAXIMUM_EXTENSION_CHARACTERS: usize = 255;
pub const MAXIMUM_CURSOR_CHARACTERS: usize = 524_288;
pub const MAXIMUM_OPERATION_ID_CHARACTERS: usize = 128;
pub const PERFORMANCE_HISTORY_PAGE_SIZE: i64 = 25;

/// `offset`/`limit` paging of list requests.
#[derive(Debug, Clone, Copy)]
pub struct PageParameters {
    pub offset: i64,
    pub limit: i64,
}

impl Default for PageParameters {
    fn default() -> (r: PageParameters)
        ensures
            r.offset == 0,
            r.limit == DEFAULT_PAGE_SIZE,
    {
        PageParameters { offset: 0, limit: DEFAULT_PAGE_SIZE }
    }
}

pub open spec fn page_failure() -> FailureView {
    failure("invalid_request"@, "offset must be non-negative and limit must be 1..=500"@, seq![])
}

/// A page is valid when the offset is non-negative and the limit is 1..=500.
pub fn validate_page_values(offset: i64, limit: i64) -> (r: Result<(), ProtocolFailure>)
    ensures
        r is Ok <==> (offset >= 0 && 1 <= limit <= MAXIMUM_PAGE_SIZE),
        r matches Err(f) ==> f@ =~~= page_failure(),
{
    if offset < 0 || !(1 <= limit && limit <= MAXIMUM_PAGE_SIZE) {
        Err(ProtocolFailure::new("invalid_request", "offset must be non-negative and limit must be 1..=500"))
    } else {
        Ok(())
    }
}

pub fn validate_page(page: &PageParameters) -> (r: Result<(), ProtocolFailure>)
    ensures
        r is Ok <==> (page.offset >= 0 && 1 <= page.limit <= MAXIMUM_PAGE_SIZE),
        r matches Err(f) ==> f@ =~~= page_failure(),
{
    validate_page_values(page.offset, page.limit)
}

/// A result page holds 1..=500 rows.
pub fn validate_result_page_size(page_size: i64) -> (r: Result<(), ProtocolFailure>)
    ensures
        r is Ok <==> 1 <= page_size <= MAXIMUM_PAGE_SIZE,
        r matches Err(f) ==> f@ =~~= failure("invalid_request"@, "pageSize must be 1..=500"@, seq![]),
{
    if 1 <= page_size && page_size <= MAXIMUM_PAGE_SIZE {
        Ok(())
    } else {
        Err(ProtocolFailure::new("invalid_request", "pageSize must be 1..=500"))
    }
}

pub open spec fn operation_id_failure() -> FailureView {
    failure("invalid_request"@, "operationId must contain 1 to 128 characters"@, field_details("operationId"@))
}

/// Operation ids hold 1 to 128 characters.
pub fn validate_operation_id(operation_id: &str) -> (r: Result<(), ProtocolFailure>)
    ensures
        r is Ok <==> (0 < operation_id@.len() <= MAXIMUM_OPERATION_ID_CHARACTERS),
        r matches Err(f) ==> f@ =~~= operation_id_failure(),
{
    let n = chars_of(operation_id).len();
    if n == 0 || n > MAXIMUM_OPERATION_ID_CHARACTERS {
        return Err(ProtocolFailure::new("invalid_request", "operationId must contain 1 to 128 characters").with_field("operationId"));
    }
    Ok(())
}

/// The trimmed search text, if any remains.
pub open spec fn search_spec(value: Option<Seq<char>>) -> Option<Seq<char>> {
    match value {
        Some(s) => if trim_spec(s).len() > 0 {
            Some(trim_spec(s))
        } else {
            None
        },
        None => None,
    }
}

pub open spec fn option_view(o: Option<String>) -> Option<Seq<char>> {
    match o {
        Some(s) => Some(s@),
        None => None,
    }
}

/// A substring search is trimmed and dropped when blank; it may hold at
/// most 512 characters.
pub fn validate_search(value: Option<String>) -> (r: Result<Option<String>, ProtocolFailure>)
    ensures
        r is Ok <==> (search_spec(option_view(value)) matches Some(s) ==> s.len() <= MAXIMUM_FILTER_CHARACTERS),
        r matches Ok(v) ==> option_view(v) == search_spec(option_view(value)),
        r matches Err(f) ==> f@ =~~= failure("invalid_request"@, "filter.search may contain at most 512 characters"@, field_details("filter.search"@)),
{
    match value {
        None => Ok(None),
        Some(search) => {
            let t = trim_chars(&chars_of(search.as_str()));
            if t.len() == 0 {
                Ok(None)
            } else if t.len() > MAXIMUM_FILTER_CHARACTERS {
                Err(ProtocolFailure::new("invalid_request", "filter.search may contain at most 512 characters").with_field("filter.search"))
            } else {
                Ok(Some(string_of(&t)))
            }
        },
    }
}

/// The search text of a group filter: trimmed for substring matching, kept
/// verbatim (unless blank) for exact path matching.
pub open spec fn group_path_filter_spec(value: Option<Seq<char>>, path_match: DuplicateFilePathMatchMode) -> Option<Seq<char>> {
    if path_match == DuplicateFilePathMatchMode::Substring {
        search_spec(value)
    } else {
        match value {
            Some(s) => if trim_spec(s).len() > 0 {
                Some(s)
            } else {
                None
            },
            None => None,
        }
    }
}

pub open spec fn group_path_filter_limit(path_match: DuplicateFilePathMatchMode) -> nat {
    if path_match == DuplicateFilePathMatchMode::Substring {
        MAXIMUM_FILTER_CHARACTERS as nat
    } else {
        MAXIMUM_EXACT_PATH_CHARACTERS as nat
    }
}

pub open spec fn group_path_filter_failure(path_match: DuplicateFilePathMatchMode) -> FailureView {
    if path_match == DuplicateFilePathMatchMode::Substring {
        failure("invalid_request"@, "filter.search may contain at most 512 characters"@, field_details("filter.search"@))
    } else {
        failure(
            "invalid_request"@,
            "filter.search may contain at most 32767 characters for exact path matching"@,
            field_details("filter.search"@),
        )
    }
}

pub fn validate_group_path_filter(value: Option<String>, path_match: DuplicateFilePathMatchMode) -> (r: Result<Option<String>, ProtocolFailure>)
    ensures
        r is Ok <==> (group_path_filter_spec(option_view(value), path_match) matches Some(s) ==> s.len() <= group_path_filter_limit(path_match)),
        r matches Ok(v) ==> option_view(v) == group_path_filter_spec(option_view(value), path_match),
        r matches Err(f) ==> f@ =~~= group_path_filter_failure(path_match),
{
    if path_match == DuplicateFilePathMatchMode::Substring {
        return validate_search(value);
    }
    match value {
        None => Ok(None),
        Some(search) => {
            let chars = chars_of(search.as_str());
            let t = trim_chars(&chars);
            if t.len() == 0 {
                Ok(None)
            } else if chars.len() > MAXIMUM_EXACT_PATH_CHARACTERS {
                Err(
                    ProtocolFailure::new("invalid_request", "filter.search may contain at most 32767 characters for exact path matching")
                        .with_field("filter.search"),
                )
            } else {
                Ok(Some(search))
            }
        },
    }
}

/// An extension is acceptable when it has at most 255 characters and no
/// dot or path separator.
pub open spec fn extension_acceptable(s: Seq<char>) -> bool {
    s.len() <= MAXIMUM_EXTENSION_CHARACTERS && !s.contains('.') && !s.contains('/') && !s.contains('\\')
}

pub open spec fn extension_failure() -> FailureView {
    failure(
        "invalid_request"@,
        "filter.extension must be empty for no extension or contain at most 255 characters without a dot or path separator"@,
        field_details("filter.extension"@),
    )
}

fn contains_char(v: &Vec<char>, c: char) -> (r: bool)
    ensures
        r == v@.contains(c),
{
    let mut i: usize = 0;
    while i < v.len()
        invariant
            i <= v@.len(),
            forall|j: int| 0 <= j < i ==> v@[j] != c,
        decreases v.len() - i,
    {
        if v[i] == c {
            assert(v@[i as int] == c);
            return true;
        }
        i = i + 1;
    }
    false
}

/// The extension filter, lowercased; an empty extension selects files
/// without one.
pub fn normalize_extension_filter(value: Option<&str>) -> (r: Result<Option<String>, ProtocolFailure>)
    ensures
        value is None ==> r == Ok::<Option<String>, ProtocolFailure>(None),
        value matches Some(v) ==> (r is Ok <==> extension_acceptable(v@)),
        value matches Some(v) ==> (r matches Ok(o) ==> (o matches Some(e) && e@ == lowercase_of(v@))),
        r matches Err(f) ==> f@ =~~= extension_failure(),
{
    match value {
        None => Ok(None),
        Some(v) => {
            let chars = chars_of(v);
            if chars.len() > MAXIMUM_EXTENSION_CHARACTERS || contains_char(&chars, '.') || contains_char(&chars, '/')
                || contains_char(&chars, '\\') {
                return Err(
                    ProtocolFailure::new(
                        "invalid_request",
                        "filter.extension must be empty for no extension or contain at most 255 characters without a dot or path separator",
                    ).with_field("filter.extension"),
                );
            }
            Ok(Some(to_lowercase(v)))
        },
    }
}

/// `any` or `all`; without an extension filter the mode is always `any`.
pub fn normalize_extension_match(value: &str, extension: Option<&str>) -> (r: Result<DuplicateFileExtensionMatchMode, ProtocolFailure>)
    ensures
        r is Ok <==> (value@ == "any"@ || value@ == "all"@),
        r matches Ok(m) ==> m == (if extension is Some && value@ == "all"@ {
            DuplicateFileExtensionMatchMode::AllMembers
        } else {
            DuplicateFileExtensionMatchMode::AnyMember
        }),
        r matches Err(f) ==> f@ =~~= allowed_failure(
            "filter.extensionMatch must be any or all"@,
            "filter.extensionMatch"@,
            seq!["any"@, "all"@],
        ),
{
    proof {
        reveal_strlit("any");
        reveal_strlit("all");
        assert("any"@[1] != "all"@[1]);
    }
    let parsed = if str_equals(value, "any") {
        DuplicateFileExtensionMatchMode::AnyMember
    } else if str_equals(value, "all") {
        DuplicateFileExtensionMatchMode::AllMembers
    } else {
        let allowed: [&str; 2] = ["any", "all"];
        assert(allowed@ =~= seq!["any", "all"]);
        assert(allowed@.map_values(|s: &str| s@) =~= seq!["any"@, "all"@]);
        let f = ProtocolFailure::new("invalid_request", "filter.extensionMatch must be any or all").with_field(
            "filter.extensionMatch",
        ).with_detail("allowed", texts(&allowed));
        return Err(f);
    };
    if extension.is_some() {
        Ok(parsed)
    } else {
        Ok(DuplicateFileExtensionMatchMode::AnyMember)
    }
}

/// The failure for a field that must hold a non-negative decimal string.
pub open spec fn decimal_failure(field: Seq<char>) -> FailureView {
    failure("invalid_request"@, field + " must be a non-negative decimal string"@, field_details(field))
}

/// A non-negative `i64` written in decimal.
pub fn parse_non_negative_decimal(value: &str, field: &str) -> (r: Result<i64, ProtocolFailure>)
    ensures
        r is Ok <==> (parse_i64_spec(value@) matches Some(n) && n >= 0),
        r matches Ok(n) ==> parse_i64_spec(value@) == Some(n),
        r matches Err(f) ==> f@ =~~= decimal_failure(field@),
{
    match parse_i64(value) {
        Some(n) => if n >= 0 {
            return Ok(n);
        },
        None => {},
    }
    let mut message = string_from(field);
    message.append(" must be a non-negative decimal string");
    let f = ProtocolFailure { code: string_from("invalid_request"), message, retryable: false, details: Vec::new() };
    assert(f@.details =~= Seq::<(Seq<char>, DetailView)>::empty());
    Err(f.with_field(field))
}

/// At least two copies are needed for a duplicate.
pub fn validate_minimum_copy_count(value: i64) -> (r: Result<(), ProtocolFailure>)
    ensures
        r is Ok <==> value >= 2,
        r matches Err(f) ==> f@ =~~= failure(
            "invalid_request"@,
            "filter.minimumCopyCount must be an integer greater than or equal to 2"@,
            field_details("filter.minimumCopyCount"@),
        ),
{
    if value >= 2 {
        Ok(())
    } else {
        Err(
            ProtocolFailure::new("invalid_request", "filter.minimumCopyCount must be an integer greater than or equal to 2").with_field(
                "filter.minimumCopyCount",
            ),
        )
    }
}

/// The snapshot state a warning page reports for a run status.
pub open spec fn warning_snapshot_state_spec(run_status: Seq<char>) -> Seq<char> {
    if run_status == "running"@ || run_status == "cancelling"@ {
        "active"@
    } else if run_status == "completed"@ || run_status == "cancelled"@ || run_status == "failed"@ || run_status == "interrupted"@ {
        "terminal"@
    } else {
        "pending"@
    }
}

/// The snapshot state follows the run's life: a live run (running or
/// cancelling) is `active`; a finished run (completed, cancelled, failed or
/// interrupted) is `terminal`; any other status is `pending`. The three
/// states are distinct, so no finished run reads as live or pending.
pub proof fn lemma_snapshot_state_follows_run_life(run_status: Seq<char>)
    ensures
        (run_status == "running"@ || run_status == "cancelling"@) ==> warning_snapshot_state_spec(run_status) == "active"@,
        (run_status == "failed"@ || run_status == "interrupted"@ || run_status == "completed"@ || run_status == "cancelled"@)
            ==> warning_snapshot_state_spec(run_status) == "terminal"@,
        !(run_status == "running"@ || run_status == "cancelling"@ || run_status == "failed"@ || run_status == "interrupted"@
            || run_status == "completed"@ || run_status == "cancelled"@) ==> warning_snapshot_state_spec(run_status)
            == "pending"@,
        "active"@ != "terminal"@ && "terminal"@ != "pending"@ && "active"@ != "pending"@,
{
    reveal_strlit("running");
    reveal_strlit("cancelling");
    reveal_strlit("completed");
    reveal_strlit("cancelled");
    reveal_strlit("failed");
    reveal_strlit("interrupted");
    reveal_strlit("active");
    reveal_strlit("terminal");
    reveal_strlit("pending");
    assert("running"@.len() == 7 && "cancelling"@.len() == 10);
    assert("completed"@.len() == 9 && "cancelled"@.len() == 9 && "failed"@.len() == 6 && "interrupted"@.len() == 11);
    assert("active"@[0] != "terminal"@[0]);
    assert("terminal"@[0] != "pending"@[0]);
    assert("active"@[0] != "pending"@[0]);
}

pub fn warning_snapshot_state(run_status: &str) -> (r: &'static str)
    ensures
        r@ == warning_snapshot_state_spec(run_status@),
{
    if str_equals(run_status, "running") || str_equals(run_status, "cancelling") {
        "active"
    } else if str_equals(run_status, "completed") || str_equals(run_status, "cancelled") || str_equals(run_status, "failed")
        || str_equals(run_status, "interrupted") {
        "terminal"
    } else {
        "pending"
    }
}

/// Parameters of `preference_rule.save`.
#[derive(Debug, Clone)]
pub struct PreferenceRuleSaveParameters {
    pub operation_id: String,
    pub rule_id: Option<i64>,
    pub name: String,
    pub roots: Vec<String>,
    pub expected_revision: i64,
}

/// A rule root is a nonblank absolute path of at most 32767 characters
/// without surrounding whitespace.
pub open spec fn rule_root_acceptable(r: Seq<char>) -> bool {
    &&& r == trim_spec(r)
    &&& r.len() > 0
    &&& r.len() <= MAXIMUM_EXACT_PATH_CHARACTERS
    &&& path_is_absolute(r)
}

/// Whether root `k` repeats an earlier root, ignoring case.
pub open spec fn root_repeats_earlier(roots: Seq<Seq<char>>, k: int) -> bool {
    exists|j: int| 0 <= j < k && lowercase_of(#[trigger] roots[j]) == lowercase_of(roots[k])
}

pub open spec fn rule_root_failure() -> FailureView {
    failure("invalid_request"@, "each root must be a nonblank absolute path of at most 32767 characters"@, field_details("roots"@))
}

pub open spec fn rule_duplicate_root_failure() -> FailureView {
    failure("invalid_request"@, "roots must be unique ignoring case"@, field_details("roots"@))
}

/// The failure for the first offending root at or after `k`, if any.
pub open spec fn rule_roots_failure(roots: Seq<Seq<char>>, k: int) -> Option<FailureView>
    decreases roots.len() - k,
{
    if k < 0 || k >= roots.len() {
        None
    } else if !rule_root_acceptable(roots[k]) {
        Some(rule_root_failure())
    } else if root_repeats_earlier(roots, k) {
        Some(rule_duplicate_root_failure())
    } else {
        rule_roots_failure(roots, k + 1)
    }
}

pub open spec fn strings_view(v: Seq<String>) -> Seq<Seq<char>> {
    v.map_values(|s: String| s@)
}

/// The failure a rule definition earns, checking in order the operation
/// id, the name, the number of roots, the revision and each root.
pub open spec fn rule_parameters_failure(p: PreferenceRuleSaveParameters) -> Option<FailureView> {
    if p.operation_id@.len() == 0 || p.operation_id@.len() > MAXIMUM_OPERATION_ID_CHARACTERS {
        Some(operation_id_failure())
    } else if p.name@ != trim_spec(p.name@) || trim_spec(p.name@).len() == 0 || p.name@.len() > 128 {
        Some(
            failure(
                "invalid_request"@,
                "name must contain 1 to 128 characters without surrounding whitespace"@,
                field_details("name"@),
            ),
        )
    } else if !(1 <= p.roots@.len() <= 64) {
        Some(
            failure(
                "invalid_request"@,
                "roots must contain 1 to 64 ordered paths"@,
                field_details("roots"@).push(("minimum"@, DetailView::Integer(1))).push(("maximum"@, DetailView::Integer(64))),
            ),
        )
    } else if p.expected_revision < 0 || (p.rule_id is None && p.expected_revision != 0) {
        Some(
            failure(
                "invalid_request"@,
                "new rules require expectedRevision zero; revisions cannot be negative"@,
                field_details("expectedRevision"@),
            ),
        )
    } else {
        rule_roots_failure(strings_view(p.roots@), 0)
    }
}

fn seen_contains(seen: &Vec<String>, s: &String) -> (r: bool)
    ensures
        r == exists|j: int| 0 <= j < seen@.len() && (#[trigger] seen@[j])@ == s@,
{
    let mut i: usize = 0;
    while i < seen.len()
        invariant
            i <= seen@.len(),
            forall|j: int| 0 <= j < i ==> (#[trigger] seen@[j])@ != s@,
        decreases seen.len() - i,
    {
        if str_equals(seen[i].as_str(), s.as_str()) {
            return true;
        }
        i = i + 1;
    }
    false
}

fn root_acceptable(root: &String) -> (r: bool)
    ensures
        r == rule_root_acceptable(root@),
{
    let chars = chars_of(root.as_str());
    assert(chars@ == root@);
    let t = trim_chars(&chars);
    if t.len() != chars.len() {
        assert(t@ != chars@);
        assert(t@.len() != chars@.len());
        return false;
    }
    let mut i: usize = 0;
    while i < t.len()
        invariant
            t@.len() == chars@.len(),
            chars@ == root@,
            t@ == trim_spec(chars@),
            i <= t@.len(),
            forall|j: int| 0 <= j < i ==> t@[j] == chars@[j],
        decreases t.len() - i,
    {
        if t[i] != chars[i] {
            assert(t@[i as int] != chars@[i as int]);
            return false;
        }
        i = i + 1;
    }
    assert(t@ =~= chars@);
    chars.len() > 0 && chars.len() <= MAXIMUM_EXACT_PATH_CHARACTERS && is_absolute_path(root.as_str())
}

/// Checks a preference rule definition before it is saved.
pub fn validate_preference_rule_parameters(parameters: &PreferenceRuleSaveParameters) -> (r: Result<(), ProtocolFailure>)
    ensures
        r is Ok <==> rule_parameters_failure(*parameters) is None,
        r matches Err(f) ==> Some(f@) =~~= rule_parameters_failure(*parameters),
{
    if validate_operation_id(parameters.operation_id.as_str()).is_err() {
        return Err(ProtocolFailure::new("invalid_request", "operationId must contain 1 to 128 characters").with_field("operationId"));
    }
    let name = chars_of(parameters.name.as_str());
    let trimmed = trim_chars(&name);
    let mut name_is_trimmed = trimmed.len() == name.len();
    if name_is_trimmed {
        let mut i: usize = 0;
        while i < name.len()
            invariant
                trimmed@.len() == name@.len(),
                i <= name@.len(),
                name_is_trimmed == (forall|j: int| 0 <= j < i ==> trimmed@[j] == name@[j]),
            decreases name.len() - i,
        {
            if trimmed[i] != name[i] {
                name_is_trimmed = false;
            }
            i = i + 1;
        }
        if name_is_trimmed {
            assert(trimmed@ =~= name@);
        }
    }
    if !name_is_trimmed || trimmed.len() == 0 || name.len() > 128 {
        return Err(
            ProtocolFailure::new("invalid_request", "name must contain 1 to 128 characters without surrounding whitespace").with_field(
                "name",
            ),
        );
    }
    let root_count = parameters.roots.len();
    if !(1 <= root_count && root_count <= 64) {
        let f = ProtocolFailure::new("invalid_request", "roots must contain 1 to 64 ordered paths").with_field("roots").with_detail(
            "minimum",
            DetailValue::Integer(1),
        ).with_detail("maximum", DetailValue::Integer(64));
        return Err(f);
    }
    if parameters.expected_revision < 0 || (parameters.rule_id.is_none() && parameters.expected_revision != 0) {
        return Err(
            ProtocolFailure::new("invalid_request", "new rules require expectedRevision zero; revisions cannot be negative").with_field(
                "expectedRevision",
            ),
        );
    }
    let ghost roots = strings_view(parameters.roots@);
    let mut seen: Vec<String> = Vec::new();
    let mut k: usize = 0;
    while k < root_count
        invariant
            root_count == parameters.roots@.len(),
            roots == strings_view(parameters.roots@),
            k <= root_count,
            seen@.len() == k,
            forall|j: int| 0 <= j < k ==> (#[trigger] seen@[j])@ == lowercase_of(roots[j]),
            rule_roots_failure(roots, 0) == rule_roots_failure(roots, k as int),
            rule_parameters_failure(*parameters) == rule_roots_failure(roots, 0),
        decreases root_count - k,
    {
        let root = &parameters.roots[k];
        assert(roots[k as int] == root@);
        if !root_acceptable(root) {
            return Err(
                ProtocolFailure::new("invalid_request", "each root must be a nonblank absolute path of at most 32767 characters").with_field(
                    "roots",
                ),
            );
        }
        let lowered = to_lowercase(root.as_str());
        if seen_contains(&seen, &lowered) {
            proof {
                let j = choose|j: int| 0 <= j < seen@.len() && (#[trigger] seen@[j])@ == lowered@;
                assert(lowercase_of(roots[j]) == lowercase_of(roots[k as int]));
                assert(root_repeats_earlier(roots, k as int));
            }
            return Err(ProtocolFailure::new("invalid_request", "roots must be unique ignoring case").with_field("roots"));
        }
        proof {
            if root_repeats_earlier(roots, k as int) {
                let j = choose|j: int| 0 <= j < k && lowercase_of(#[trigger] roots[j]) == lowercase_of(roots[k as int]);
                assert(seen@[j]@ == lowered@);
            }
        }
        seen.push(lowered);
        k = k + 1;
    }
    Ok(())
}

pub fn default_page_size() -> (r: i64)
    ensures
        r == DEFAULT_PAGE_SIZE,
{
    DEFAULT_PAGE_SIZE
}

pub fn default_result_page_size() -> (r: i64)
    ensures
        r == DEFAULT_RESULT_PAGE_SIZE,
{
    DEFAULT_RESULT_PAGE_SIZE
}

pub fn default_performance_history_page_size() -> (r: i64)
    ensures
        r == PERFORMANCE_HISTORY_PAGE_SIZE,
{
    PERFORMANCE_HISTORY_PAGE_SIZE
}

pub fn default_group_sort_field() -> (r: String)
    ensures
        r@ == "recoverableBytes"@,
{
    string_from("recoverableBytes")
}

pub fn default_warning_sort_field() -> (r: String)
    ensures
        r@ == "occurrenceCount"@,
{
    string_from("occurrenceCount")
}

pub fn default_selected_root_facet_sort_field() -> (r: String)
    ensures
        r@ == "matchingGroupCount"@,
{
    string_from("matchingGroupCount")
}

pub fn default_drive_facet_sort_field() -> (r: String)
    ensures
        r@ == "matchingGroupCount"@,
{
    string_from("matchingGroupCount")
}

pub fn default_folder_group_sort_field() -> (r: String)
    ensures
        r@ == "totalBytes"@,
{
    string_from("totalBytes")
}

pub fn default_member_sort_field() -> (r: String)
    ensures
        r@ == "path"@,
{
    string_from("path")
}

pub fn default_path_match() -> (r: String)
    ensures
        r@ == "substring"@,
{
    string_from("substring")
}

pub fn default_extension_match() -> (r: String)
    ensures
        r@ == "any"@,
{
    string_from("any")
}

pub fn default_descending() -> (r: String)
    ensures
        r@ == "descending"@,
{
    string_from("descending")
}

pub fn default_ascending() -> (r: String)
    ensures
        r@ == "ascending"@,
{
    string_from("ascending")
}

pub fn default_minimum_size() -> (r: String)
    ensures
        r@ == "0"@,
{
    string_from("0")
}

pub fn default_minimum_copy_count() -> (r: i64)
    ensures
        r == 2,
{
    2
}

pub fn default_application_state() -> (r: String)
    ensures
        r@ == "all"@,
{
    string_from("all")
}

} // verus!
