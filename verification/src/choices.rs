//! The protocol's enumerated choices: sort fields, sort directions and
//! path-match modes, with their wire names and the parsers that accept
//! exactly those names.
use vstd::prelude::*;
use crate::failure::{field_details, failure, str_equals, texts, DetailView, FailureView, ProtocolFailure};

verus! {

/// The failure for a value outside an enumerated set: `invalid_request`
/// with the offending field and the allowed names.
pub open spec fn allowed_failure(message: Seq<char>, field: Seq<char>, allowed: Seq<Seq<char>>) -> FailureView {
    failure("invalid_request"@, message, field_details(field).push(("allowed"@, DetailView::Texts(allowed))))
}

#[derive(Clone, Copy, Debug, PartialEq, Eq, Structural)]
pub enum SortDirection {
    Ascending,
    Descending,
}

/// The wire name of each `SortDirection`.
pub open spec fn direction_name_spec(v: SortDirection) -> Seq<char> {
    match v {
        SortDirection::Ascending => "ascending"@,
        SortDirection::Descending => "descending"@,
    }
}

pub fn direction_name(v: SortDirection) -> (r: &'static str)
    ensures
        r@ == direction_name_spec(v),
{
    match v {
        SortDirection::Ascending => "ascending",
        SortDirection::Descending => "descending",
    }
}

/// Accepts exactly the wire names of `SortDirection`.
pub fn parse_sort_direction(value: &str) -> (r: Result<SortDirection, ProtocolFailure>)
    ensures
        r is Ok <==> (value@ == "ascending"@ || value@ == "descending"@),
        r matches Ok(v) ==> direction_name_spec(v) == value@,
        r matches Err(f) ==> f@ =~~= failure("invalid_request"@, "sort.direction must be ascending or descending"@, field_details("sort.direction"@)),
{
    if str_equals(value, "ascending") {
        Ok(SortDirection::Ascending)
    } else if str_equals(value, "descending") {
        Ok(SortDirection::Descending)
    } else {
        let f = ProtocolFailure::new("invalid_request", "sort.direction must be ascending or descending").with_field("sort.direction");
        assert(f@ =~~= failure("invalid_request"@, "sort.direction must be ascending or descending"@, field_details("sort.direction"@)));
        Err(f)
    }
}

/// Distinct values have distinct wire names, so parsing a name gives back
/// the value it names.
pub proof fn lemma_direction_names_distinct(a: SortDirection, b: SortDirection)
    ensures
        direction_name_spec(a) == direction_name_spec(b) <==> a == b,
{
    reveal_strlit("ascending");
    reveal_strlit("descending");
    match (a, b) {
        (SortDirection::Ascending, SortDirection::Descending) => {
            assert(direction_name_spec(a).len() != direction_name_spec(b).len());
        },
        (SortDirection::Descending, SortDirection::Ascending) => {
            assert(direction_name_spec(a).len() != direction_name_spec(b).len());
        },
        _ => {},
    }
}

#[derive(Clone, Copy, Debug, PartialEq, Eq, Structural)]
pub enum DuplicateFilePathMatchMode {
    Substring,
    Exact,
}

/// The wire name of each `DuplicateFilePathMatchMode`.
pub open spec fn path_match_name_spec(v: DuplicateFilePathMatchMode) -> Seq<char> {
    match v {
        DuplicateFilePathMatchMode::Substring => "substring"@,
        DuplicateFilePathMatchMode::Exact => "exact"@,
    }
}

pub fn path_match_name(v: DuplicateFilePathMatchMode) -> (r: &'static str)
    ensures
        r@ == path_match_name_spec(v),
{
    match v {
        DuplicateFilePathMatchMode::Substring => "substring",
        DuplicateFilePathMatchMode::Exact => "exact",
    }
}

/// Accepts exactly the wire names of `DuplicateFilePathMatchMode`.
pub fn parse_path_match(value: &str) -> (r: Result<DuplicateFilePathMatchMode, ProtocolFailure>)
    ensures
        r is Ok <==> (value@ == "substring"@ || value@ == "exact"@),
        r matches Ok(v) ==> path_match_name_spec(v) == value@,
        r matches Err(f) ==> f@ =~~= allowed_failure("filter.pathMatch must be substring or exact"@, "filter.pathMatch"@, seq!["substring"@, "exact"@]),
{
    if str_equals(value, "substring") {
        Ok(DuplicateFilePathMatchMode::Substring)
    } else if str_equals(value, "exact") {
        Ok(DuplicateFilePathMatchMode::Exact)
    } else {
        let allowed: [&str; 2] = ["substring", "exact"];
        assert(allowed@ =~= seq!["substring", "exact"]);
        assert(allowed@.map_values(|s: &str| s@) =~= seq!["substring"@, "exact"@]);
        let f = ProtocolFailure::new("invalid_request", "filter.pathMatch must be substring or exact").with_field("filter.pathMatch").with_detail("allowed", texts(&allowed));
        assert(f@ =~~= allowed_failure("filter.pathMatch must be substring or exact"@, "filter.pathMatch"@, seq!["substring"@, "exact"@]));
        Err(f)
    }
}

/// Distinct values have distinct wire names, so parsing a name gives back
/// the value it names.
pub proof fn lemma_path_match_names_distinct(a: DuplicateFilePathMatchMode, b: DuplicateFilePathMatchMode)
    ensures
        path_match_name_spec(a) == path_match_name_spec(b) <==> a == b,
{
    reveal_strlit("substring");
    reveal_strlit("exact");
    match (a, b) {
        (DuplicateFilePathMatchMode::Substring, DuplicateFilePathMatchMode::Exact) => {
            assert(path_match_name_spec(a).len() != path_match_name_spec(b).len());
        },
        (DuplicateFilePathMatchMode::Exact, DuplicateFilePathMatchMode::Substring) => {
            assert(path_match_name_spec(a).len() != path_match_name_spec(b).len());
        },
        _ => {},
    }
}

#[derive(Clone, Copy, Debug, PartialEq, Eq, Structural)]
pub enum DuplicateFileGroupSortField {
    RecoverableBytes,
    GroupSize,
    CopyCount,
    RepresentativeName,
}

/// The wire name of each `DuplicateFileGroupSortField`.
pub open spec fn group_sort_name_spec(v: DuplicateFileGroupSortField) -> Seq<char> {
    match v {
        DuplicateFileGroupSortField::RecoverableBytes => "recoverableBytes"@,
        DuplicateFileGroupSortField::GroupSize => "groupSize"@,
        DuplicateFileGroupSortField::CopyCount => "copyCount"@,
        DuplicateFileGroupSortField::RepresentativeName => "representativeName"@,
    }
}

pub fn group_sort_name(v: DuplicateFileGroupSortField) -> (r: &'static str)
    ensures
        r@ == group_sort_name_spec(v),
{
    match v {
        DuplicateFileGroupSortField::RecoverableBytes => "recoverableBytes",
        DuplicateFileGroupSortField::GroupSize => "groupSize",
        DuplicateFileGroupSortField::CopyCount => "copyCount",
        DuplicateFileGroupSortField::RepresentativeName => "representativeName",
    }
}

/// Accepts exactly the wire names of `DuplicateFileGroupSortField`.
pub fn parse_group_sort_field(value: &str) -> (r: Result<DuplicateFileGroupSortField, ProtocolFailure>)
    ensures
        r is Ok <==> (value@ == "recoverableBytes"@ || value@ == "groupSize"@ || value@ == "copyCount"@ || value@ == "representativeName"@),
        r matches Ok(v) ==> group_sort_name_spec(v) == value@,
        r matches Err(f) ==> f@ =~~= allowed_failure("sort.field is not allowed for duplicate file groups"@, "sort.field"@, seq!["recoverableBytes"@, "groupSize"@, "copyCount"@, "representativeName"@]),
{
    if str_equals(value, "recoverableBytes") {
        Ok(DuplicateFileGroupSortField::RecoverableBytes)
    } else if str_equals(value, "groupSize") {
        Ok(DuplicateFileGroupSortField::GroupSize)
    } else if str_equals(value, "copyCount") {
        Ok(DuplicateFileGroupSortField::CopyCount)
    } else if str_equals(value, "representativeName") {
        Ok(DuplicateFileGroupSortField::RepresentativeName)
    } else {
        let allowed: [&str; 4] = ["recoverableBytes", "groupSize", "copyCount", "representativeName"];
        assert(allowed@ =~= seq!["recoverableBytes", "groupSize", "copyCount", "representativeName"]);
        assert(allowed@.map_values(|s: &str| s@) =~= seq!["recoverableBytes"@, "groupSize"@, "copyCount"@, "representativeName"@]);
        let f = ProtocolFailure::new("invalid_request", "sort.field is not allowed for duplicate file groups").with_field("sort.field").with_detail("allowed", texts(&allowed));
        assert(f@ =~~= allowed_failure("sort.field is not allowed for duplicate file groups"@, "sort.field"@, seq!["recoverableBytes"@, "groupSize"@, "copyCount"@, "representativeName"@]));
        Err(f)
    }
}

/// Distinct values have distinct wire names, so parsing a name gives back
/// the value it names.
pub proof fn lemma_group_sort_names_distinct(a: DuplicateFileGroupSortField, b: DuplicateFileGroupSortField)
    ensures
        group_sort_name_spec(a) == group_sort_name_spec(b) <==> a == b,
{
    reveal_strlit("recoverableBytes");
    reveal_strlit("groupSize");
    reveal_strlit("copyCount");
    reveal_strlit("representativeName");
    match (a, b) {
        (DuplicateFileGroupSortField::RecoverableBytes, DuplicateFileGroupSortField::GroupSize) => {
            assert(group_sort_name_spec(a).len() != group_sort_name_spec(b).len());
        },
        (DuplicateFileGroupSortField::RecoverableBytes, DuplicateFileGroupSortField::CopyCount) => {
            assert(group_sort_name_spec(a).len() != group_sort_name_spec(b).len());
        },
        (DuplicateFileGroupSortField::RecoverableBytes, DuplicateFileGroupSortField::RepresentativeName) => {
            assert(group_sort_name_spec(a).len() != group_sort_name_spec(b).len());
        },
        (DuplicateFileGroupSortField::GroupSize, DuplicateFileGroupSortField::RecoverableBytes) => {
            assert(group_sort_name_spec(a).len() != group_sort_name_spec(b).len());
        },
        (DuplicateFileGroupSortField::GroupSize, DuplicateFileGroupSortField::CopyCount) => {
            assert(group_sort_name_spec(a)[0] != group_sort_name_spec(b)[0]);
        },
        (DuplicateFileGroupSortField::GroupSize, DuplicateFileGroupSortField::RepresentativeName) => {
            assert(group_sort_name_spec(a).len() != group_sort_name_spec(b).len());
        },
        (DuplicateFileGroupSortField::CopyCount, DuplicateFileGroupSortField::RecoverableBytes) => {
            assert(group_sort_name_spec(a).len() != group_sort_name_spec(b).len());
        },
        (DuplicateFileGroupSortField::CopyCount, DuplicateFileGroupSortField::GroupSize) => {
            assert(group_sort_name_spec(a)[0] != group_sort_name_spec(b)[0]);
        },
        (DuplicateFileGroupSortField::CopyCount, DuplicateFileGroupSortField::RepresentativeName) => {
            assert(group_sort_name_spec(a).len() != group_sort_name_spec(b).len());
        },
        (DuplicateFileGroupSortField::RepresentativeName, DuplicateFileGroupSortField::RecoverableBytes) => {
            assert(group_sort_name_spec(a).len() != group_sort_name_spec(b).len());
        },
        (DuplicateFileGroupSortField::RepresentativeName, DuplicateFileGroupSortField::GroupSize) => {
            assert(group_sort_name_spec(a).len() != group_sort_name_spec(b).len());
        },
        (DuplicateFileGroupSortField::RepresentativeName, DuplicateFileGroupSortField::CopyCount) => {
            assert(group_sort_name_spec(a).len() != group_sort_name_spec(b).len());
        },
        _ => {},
    }
}

#[derive(Clone, Copy, Debug, PartialEq, Eq, Structural)]
pub enum RunWarningSortField {
    Phase,
    OccurrenceCount,
    Message,
}

/// The wire name of each `RunWarningSortField`.
pub open spec fn warning_sort_name_spec(v: RunWarningSortField) -> Seq<char> {
    match v {
        RunWarningSortField::Phase => "phase"@,
        RunWarningSortField::OccurrenceCount => "occurrenceCount"@,
        RunWarningSortField::Message => "message"@,
    }
}

pub fn warning_sort_name(v: RunWarningSortField) -> (r: &'static str)
    ensures
        r@ == warning_sort_name_spec(v),
{
    match v {
        RunWarningSortField::Phase => "phase",
        RunWarningSortField::OccurrenceCount => "occurrenceCount",
        RunWarningSortField::Message => "message",
    }
}

/// Accepts exactly the wire names of `RunWarningSortField`.
pub fn parse_warning_sort_field(value: &str) -> (r: Result<RunWarningSortField, ProtocolFailure>)
    ensures
        r is Ok <==> (value@ == "phase"@ || value@ == "occurrenceCount"@ || value@ == "message"@),
        r matches Ok(v) ==> warning_sort_name_spec(v) == value@,
        r matches Err(f) ==> f@ =~~= allowed_failure("sort.field is not allowed for run warnings"@, "sort.field"@, seq!["phase"@, "occurrenceCount"@, "message"@]),
{
    if str_equals(value, "phase") {
        Ok(RunWarningSortField::Phase)
    } else if str_equals(value, "occurrenceCount") {
        Ok(RunWarningSortField::OccurrenceCount)
    } else if str_equals(value, "message") {
        Ok(RunWarningSortField::Message)
    } else {
        let allowed: [&str; 3] = ["phase", "occurrenceCount", "message"];
        assert(allowed@ =~= seq!["phase", "occurrenceCount", "message"]);
        assert(allowed@.map_values(|s: &str| s@) =~= seq!["phase"@, "occurrenceCount"@, "message"@]);
        let f = ProtocolFailure::new("invalid_request", "sort.field is not allowed for run warnings").with_field("sort.field").with_detail("allowed", texts(&allowed));
        assert(f@ =~~= allowed_failure("sort.field is not allowed for run warnings"@, "sort.field"@, seq!["phase"@, "occurrenceCount"@, "message"@]));
        Err(f)
    }
}

/// Distinct values have distinct wire names, so parsing a name gives back
/// the value it names.
pub proof fn lemma_warning_sort_names_distinct(a: RunWarningSortField, b: RunWarningSortField)
    ensures
        warning_sort_name_spec(a) == warning_sort_name_spec(b) <==> a == b,
{
    reveal_strlit("phase");
    reveal_strlit("occurrenceCount");
    reveal_strlit("message");
    match (a, b) {
        (RunWarningSortField::Phase, RunWarningSortField::OccurrenceCount) => {
            assert(warning_sort_name_spec(a).len() != warning_sort_name_spec(b).len());
        },
        (RunWarningSortField::Phase, RunWarningSortField::Message) => {
            assert(warning_sort_name_spec(a).len() != warning_sort_name_spec(b).len());
        },
        (RunWarningSortField::OccurrenceCount, RunWarningSortField::Phase) => {
            assert(warning_sort_name_spec(a).len() != warning_sort_name_spec(b).len());
        },
        (RunWarningSortField::OccurrenceCount, RunWarningSortField::Message) => {
            assert(warning_sort_name_spec(a).len() != warning_sort_name_spec(b).len());
        },
        (RunWarningSortField::Message, RunWarningSortField::Phase) => {
            assert(warning_sort_name_spec(a).len() != warning_sort_name_spec(b).len());
        },
        (RunWarningSortField::Message, RunWarningSortField::OccurrenceCount) => {
            assert(warning_sort_name_spec(a).len() != warning_sort_name_spec(b).len());
        },
        _ => {},
    }
}

#[derive(Clone, Copy, Debug, PartialEq, Eq, Structural)]
pub enum DuplicateFileSelectedRootFacetSortField {
    MatchingGroupCount,
    Value,
}

/// The wire name of each `DuplicateFileSelectedRootFacetSortField`.
pub open spec fn selected_root_facet_sort_name_spec(v: DuplicateFileSelectedRootFacetSortField) -> Seq<char> {
    match v {
        DuplicateFileSelectedRootFacetSortField::MatchingGroupCount => "matchingGroupCount"@,
        DuplicateFileSelectedRootFacetSortField::Value => "value"@,
    }
}

pub fn selected_root_facet_sort_name(v: DuplicateFileSelectedRootFacetSortField) -> (r: &'static str)
    ensures
        r@ == selected_root_facet_sort_name_spec(v),
{
    match v {
        DuplicateFileSelectedRootFacetSortField::MatchingGroupCount => "matchingGroupCount",
        DuplicateFileSelectedRootFacetSortField::Value => "value",
    }
}

/// Accepts exactly the wire names of `DuplicateFileSelectedRootFacetSortField`.
pub fn parse_selected_root_facet_sort_field(value: &str) -> (r: Result<DuplicateFileSelectedRootFacetSortField, ProtocolFailure>)
    ensures
        r is Ok <==> (value@ == "matchingGroupCount"@ || value@ == "value"@),
        r matches Ok(v) ==> selected_root_facet_sort_name_spec(v) == value@,
        r matches Err(f) ==> f@ =~~= allowed_failure("sort.field is not allowed for duplicate file selected-root facets"@, "sort.field"@, seq!["matchingGroupCount"@, "value"@]),
{
    if str_equals(value, "matchingGroupCount") {
        Ok(DuplicateFileSelectedRootFacetSortField::MatchingGroupCount)
    } else if str_equals(value, "value") {
        Ok(DuplicateFileSelectedRootFacetSortField::Value)
    } else {
        let allowed: [&str; 2] = ["matchingGroupCount", "value"];
        assert(allowed@ =~= seq!["matchingGroupCount", "value"]);
        assert(allowed@.map_values(|s: &str| s@) =~= seq!["matchingGroupCount"@, "value"@]);
        let f = ProtocolFailure::new("invalid_request", "sort.field is not allowed for duplicate file selected-root facets").with_field("sort.field").with_detail("allowed", texts(&allowed));
        assert(f@ =~~= allowed_failure("sort.field is not allowed for duplicate file selected-root facets"@, "sort.field"@, seq!["matchingGroupCount"@, "value"@]));
        Err(f)
    }
}

/// Distinct values have distinct wire names, so parsing a name gives back
/// the value it names.
pub proof fn lemma_selected_root_facet_sort_names_distinct(a: DuplicateFileSelectedRootFacetSortField, b: DuplicateFileSelectedRootFacetSortField)
    ensures
        selected_root_facet_sort_name_spec(a) == selected_root_facet_sort_name_spec(b) <==> a == b,
{
    reveal_strlit("matchingGroupCount");
    reveal_strlit("value");
    match (a, b) {
        (DuplicateFileSelectedRootFacetSortField::MatchingGroupCount, DuplicateFileSelectedRootFacetSortField::Value) => {
            assert(selected_root_facet_sort_name_spec(a).len() != selected_root_facet_sort_name_spec(b).len());
        },
        (DuplicateFileSelectedRootFacetSortField::Value, DuplicateFileSelectedRootFacetSortField::MatchingGroupCount) => {
            assert(selected_root_facet_sort_name_spec(a).len() != selected_root_facet_sort_name_spec(b).len());
        },
        _ => {},
    }
}

#[derive(Clone, Copy, Debug, PartialEq, Eq, Structural)]
pub enum DuplicateFileDriveFacetSortField {
    MatchingGroupCount,
    Value,
}

/// The wire name of each `DuplicateFileDriveFacetSortField`.
pub open spec fn drive_facet_sort_name_spec(v: DuplicateFileDriveFacetSortField) -> Seq<char> {
    match v {
        DuplicateFileDriveFacetSortField::MatchingGroupCount => "matchingGroupCount"@,
        DuplicateFileDriveFacetSortField::Value => "value"@,
    }
}

pub fn drive_facet_sort_name(v: DuplicateFileDriveFacetSortField) -> (r: &'static str)
    ensures
        r@ == drive_facet_sort_name_spec(v),
{
    match v {
        DuplicateFileDriveFacetSortField::MatchingGroupCount => "matchingGroupCount",
        DuplicateFileDriveFacetSortField::Value => "value",
    }
}

/// Accepts exactly the wire names of `DuplicateFileDriveFacetSortField`.
pub fn parse_drive_facet_sort_field(value: &str) -> (r: Result<DuplicateFileDriveFacetSortField, ProtocolFailure>)
    ensures
        r is Ok <==> (value@ == "matchingGroupCount"@ || value@ == "value"@),
        r matches Ok(v) ==> drive_facet_sort_name_spec(v) == value@,
        r matches Err(f) ==> f@ =~~= allowed_failure("sort.field is not allowed for duplicate file drive facets"@, "sort.field"@, seq!["matchingGroupCount"@, "value"@]),
{
    if str_equals(value, "matchingGroupCount") {
        Ok(DuplicateFileDriveFacetSortField::MatchingGroupCount)
    } else if str_equals(value, "value") {
        Ok(DuplicateFileDriveFacetSortField::Value)
    } else {
        let allowed: [&str; 2] = ["matchingGroupCount", "value"];
        assert(allowed@ =~= seq!["matchingGroupCount", "value"]);
        assert(allowed@.map_values(|s: &str| s@) =~= seq!["matchingGroupCount"@, "value"@]);
        let f = ProtocolFailure::new("invalid_request", "sort.field is not allowed for duplicate file drive facets").with_field("sort.field").with_detail("allowed", texts(&allowed));
        assert(f@ =~~= allowed_failure("sort.field is not allowed for duplicate file drive facets"@, "sort.field"@, seq!["matchingGroupCount"@, "value"@]));
        Err(f)
    }
}

/// Distinct values have distinct wire names, so parsing a name gives back
/// the value it names.
pub proof fn lemma_drive_facet_sort_names_distinct(a: DuplicateFileDriveFacetSortField, b: DuplicateFileDriveFacetSortField)
    ensures
        drive_facet_sort_name_spec(a) == drive_facet_sort_name_spec(b) <==> a == b,
{
    reveal_strlit("matchingGroupCount");
    reveal_strlit("value");
    match (a, b) {
        (DuplicateFileDriveFacetSortField::MatchingGroupCount, DuplicateFileDriveFacetSortField::Value) => {
            assert(drive_facet_sort_name_spec(a).len() != drive_facet_sort_name_spec(b).len());
        },
        (DuplicateFileDriveFacetSortField::Value, DuplicateFileDriveFacetSortField::MatchingGroupCount) => {
            assert(drive_facet_sort_name_spec(a).len() != drive_facet_sort_name_spec(b).len());
        },
        _ => {},
    }
}

#[derive(Clone, Copy, Debug, PartialEq, Eq, Structural)]
pub enum DuplicateFileMemberSortField {
    Path,
    ModifiedTime,
    Size,
}

/// The wire name of each `DuplicateFileMemberSortField`.
pub open spec fn member_sort_name_spec(v: DuplicateFileMemberSortField) -> Seq<char> {
    match v {
        DuplicateFileMemberSortField::Path => "path"@,
        DuplicateFileMemberSortField::ModifiedTime => "modifiedTime"@,
        DuplicateFileMemberSortField::Size => "size"@,
    }
}

pub fn member_sort_name(v: DuplicateFileMemberSortField) -> (r: &'static str)
    ensures
        r@ == member_sort_name_spec(v),
{
    match v {
        DuplicateFileMemberSortField::Path => "path",
        DuplicateFileMemberSortField::ModifiedTime => "modifiedTime",
        DuplicateFileMemberSortField::Size => "size",
    }
}

/// Accepts exactly the wire names of `DuplicateFileMemberSortField`.
pub fn parse_member_sort_field(value: &str) -> (r: Result<DuplicateFileMemberSortField, ProtocolFailure>)
    ensures
        r is Ok <==> (value@ == "path"@ || value@ == "modifiedTime"@ || value@ == "size"@),
        r matches Ok(v) ==> member_sort_name_spec(v) == value@,
        r matches Err(f) ==> f@ =~~= allowed_failure("sort.field is not allowed for duplicate file members"@, "sort.field"@, seq!["path"@, "modifiedTime"@, "size"@]),
{
    if str_equals(value, "path") {
        Ok(DuplicateFileMemberSortField::Path)
    } else if str_equals(value, "modifiedTime") {
        Ok(DuplicateFileMemberSortField::ModifiedTime)
    } else if str_equals(value, "size") {
        Ok(DuplicateFileMemberSortField::Size)
    } else {
        let allowed: [&str; 3] = ["path", "modifiedTime", "size"];
        assert(allowed@ =~= seq!["path", "modifiedTime", "size"]);
        assert(allowed@.map_values(|s: &str| s@) =~= seq!["path"@, "modifiedTime"@, "size"@]);
        let f = ProtocolFailure::new("invalid_request", "sort.field is not allowed for duplicate file members").with_field("sort.field").with_detail("allowed", texts(&allowed));
        assert(f@ =~~= allowed_failure("sort.field is not allowed for duplicate file members"@, "sort.field"@, seq!["path"@, "modifiedTime"@, "size"@]));
        Err(f)
    }
}

/// Distinct values have distinct wire names, so parsing a name gives back
/// the value it names.
pub proof fn lemma_member_sort_names_distinct(a: DuplicateFileMemberSortField, b: DuplicateFileMemberSortField)
    ensures
        member_sort_name_spec(a) == member_sort_name_spec(b) <==> a == b,
{
    reveal_strlit("path");
    reveal_strlit("modifiedTime");
    reveal_strlit("size");
    match (a, b) {
        (DuplicateFileMemberSortField::Path, DuplicateFileMemberSortField::ModifiedTime) => {
            assert(member_sort_name_spec(a).len() != member_sort_name_spec(b).len());
        },
        (DuplicateFileMemberSortField::Path, DuplicateFileMemberSortField::Size) => {
            assert(member_sort_name_spec(a)[0] != member_sort_name_spec(b)[0]);
        },
        (DuplicateFileMemberSortField::ModifiedTime, DuplicateFileMemberSortField::Path) => {
            assert(member_sort_name_spec(a).len() != member_sort_name_spec(b).len());
        },
        (DuplicateFileMemberSortField::ModifiedTime, DuplicateFileMemberSortField::Size) => {
            assert(member_sort_name_spec(a).len() != member_sort_name_spec(b).len());
        },
        (DuplicateFileMemberSortField::Size, DuplicateFileMemberSortField::Path) => {
            assert(member_sort_name_spec(a)[0] != member_sort_name_spec(b)[0]);
        },
        (DuplicateFileMemberSortField::Size, DuplicateFileMemberSortField::ModifiedTime) => {
            assert(member_sort_name_spec(a).len() != member_sort_name_spec(b).len());
        },
        _ => {},
    }
}

#[derive(Clone, Copy, Debug, PartialEq, Eq, Structural)]
pub enum DuplicateFolderGroupSortField {
    TotalBytes,
    CopyCount,
    FileCount,
    RepresentativePath,
}

/// The wire name of each `DuplicateFolderGroupSortField`.
pub open spec fn folder_group_sort_name_spec(v: DuplicateFolderGroupSortField) -> Seq<char> {
    match v {
        DuplicateFolderGroupSortField::TotalBytes => "totalBytes"@,
        DuplicateFolderGroupSortField::CopyCount => "copyCount"@,
        DuplicateFolderGroupSortField::FileCount => "fileCount"@,
        DuplicateFolderGroupSortField::RepresentativePath => "representativePath"@,
    }
}

pub fn folder_group_sort_name(v: DuplicateFolderGroupSortField) -> (r: &'static str)
    ensures
        r@ == folder_group_sort_name_spec(v),
{
    match v {
        DuplicateFolderGroupSortField::TotalBytes => "totalBytes",
        DuplicateFolderGroupSortField::CopyCount => "copyCount",
        DuplicateFolderGroupSortField::FileCount => "fileCount",
        DuplicateFolderGroupSortField::RepresentativePath => "representativePath",
    }
}

/// Accepts exactly the wire names of `DuplicateFolderGroupSortField`.
pub fn parse_folder_group_sort_field(value: &str) -> (r: Result<DuplicateFolderGroupSortField, ProtocolFailure>)
    ensures
        r is Ok <==> (value@ == "totalBytes"@ || value@ == "copyCount"@ || value@ == "fileCount"@ || value@ == "representativePath"@),
        r matches Ok(v) ==> folder_group_sort_name_spec(v) == value@,
        r matches Err(f) ==> f@ =~~= allowed_failure("sort.field is not allowed for duplicate folder groups"@, "sort.field"@, seq!["totalBytes"@, "copyCount"@, "fileCount"@, "representativePath"@]),
{
    if str_equals(value, "totalBytes") {
        Ok(DuplicateFolderGroupSortField::TotalBytes)
    } else if str_equals(value, "copyCount") {
        Ok(DuplicateFolderGroupSortField::CopyCount)
    } else if str_equals(value, "fileCount") {
        Ok(DuplicateFolderGroupSortField::FileCount)
    } else if str_equals(value, "representativePath") {
        Ok(DuplicateFolderGroupSortField::RepresentativePath)
    } else {
        let allowed: [&str; 4] = ["totalBytes", "copyCount", "fileCount", "representativePath"];
        assert(allowed@ =~= seq!["totalBytes", "copyCount", "fileCount", "representativePath"]);
        assert(allowed@.map_values(|s: &str| s@) =~= seq!["totalBytes"@, "copyCount"@, "fileCount"@, "representativePath"@]);
        let f = ProtocolFailure::new("invalid_request", "sort.field is not allowed for duplicate folder groups").with_field("sort.field").with_detail("allowed", texts(&allowed));
        assert(f@ =~~= allowed_failure("sort.field is not allowed for duplicate folder groups"@, "sort.field"@, seq!["totalBytes"@, "copyCount"@, "fileCount"@, "representativePath"@]));
        Err(f)
    }
}

/// Distinct values have distinct wire names, so parsing a name gives back
/// the value it names.
pub proof fn lemma_folder_group_sort_names_distinct(a: DuplicateFolderGroupSortField, b: DuplicateFolderGroupSortField)
    ensures
        folder_group_sort_name_spec(a) == folder_group_sort_name_spec(b) <==> a == b,
{
    reveal_strlit("totalBytes");
    reveal_strlit("copyCount");
    reveal_strlit("fileCount");
    reveal_strlit("representativePath");
    match (a, b) {
        (DuplicateFolderGroupSortField::TotalBytes, DuplicateFolderGroupSortField::CopyCount) => {
            assert(folder_group_sort_name_spec(a).len() != folder_group_sort_name_spec(b).len());
        },
        (DuplicateFolderGroupSortField::TotalBytes, DuplicateFolderGroupSortField::FileCount) => {
            assert(folder_group_sort_name_spec(a).len() != folder_group_sort_name_spec(b).len());
        },
        (DuplicateFolderGroupSortField::TotalBytes, DuplicateFolderGroupSortField::RepresentativePath) => {
            assert(folder_group_sort_name_spec(a).len() != folder_group_sort_name_spec(b).len());
        },
        (DuplicateFolderGroupSortField::CopyCount, DuplicateFolderGroupSortField::TotalBytes) => {
            assert(folder_group_sort_name_spec(a).len() != folder_group_sort_name_spec(b).len());
        },
        (DuplicateFolderGroupSortField::CopyCount, DuplicateFolderGroupSortField::FileCount) => {
            assert(folder_group_sort_name_spec(a)[0] != folder_group_sort_name_spec(b)[0]);
        },
        (DuplicateFolderGroupSortField::CopyCount, DuplicateFolderGroupSortField::RepresentativePath) => {
            assert(folder_group_sort_name_spec(a).len() != folder_group_sort_name_spec(b).len());
        },
        (DuplicateFolderGroupSortField::FileCount, DuplicateFolderGroupSortField::TotalBytes) => {
            assert(folder_group_sort_name_spec(a).len() != folder_group_sort_name_spec(b).len());
        },
        (DuplicateFolderGroupSortField::FileCount, DuplicateFolderGroupSortField::CopyCount) => {
            assert(folder_group_sort_name_spec(a)[0] != folder_group_sort_name_spec(b)[0]);
        },
        (DuplicateFolderGroupSortField::FileCount, DuplicateFolderGroupSortField::RepresentativePath) => {
            assert(folder_group_sort_name_spec(a).len() != folder_group_sort_name_spec(b).len());
        },
        (DuplicateFolderGroupSortField::RepresentativePath, DuplicateFolderGroupSortField::TotalBytes) => {
            assert(folder_group_sort_name_spec(a).len() != folder_group_sort_name_spec(b).len());
        },
        (DuplicateFolderGroupSortField::RepresentativePath, DuplicateFolderGroupSortField::CopyCount) => {
            assert(folder_group_sort_name_spec(a).len() != folder_group_sort_name_spec(b).len());
        },
        (DuplicateFolderGroupSortField::RepresentativePath, DuplicateFolderGroupSortField::FileCount) => {
            assert(folder_group_sort_name_spec(a).len() != folder_group_sort_name_spec(b).len());
        },
        _ => {},
    }
}

#[derive(Clone, Copy, Debug, PartialEq, Eq, Structural)]
pub enum DuplicateFolderMemberSortField {
    Path,
}

/// The wire name of each `DuplicateFolderMemberSortField`.
pub open spec fn folder_member_sort_name_spec(v: DuplicateFolderMemberSortField) -> Seq<char> {
    match v {
        DuplicateFolderMemberSortField::Path => "path"@,
    }
}

pub fn folder_member_sort_name(v: DuplicateFolderMemberSortField) -> (r: &'static str)
    ensures
        r@ == folder_member_sort_name_spec(v),
{
    match v {
        DuplicateFolderMemberSortField::Path => "path",
    }
}

/// Accepts exactly the wire names of `DuplicateFolderMemberSortField`.
pub fn parse_folder_member_sort_field(value: &str) -> (r: Result<DuplicateFolderMemberSortField, ProtocolFailure>)
    ensures
        r is Ok <==> (value@ == "path"@),
        r matches Ok(v) ==> folder_member_sort_name_spec(v) == value@,
        r matches Err(f) ==> f@ =~~= allowed_failure("sort.field is not allowed for duplicate folder members"@, "sort.field"@, seq!["path"@]),
{
    if str_equals(value, "path") {
        Ok(DuplicateFolderMemberSortField::Path)
    } else {
        let allowed: [&str; 1] = ["path"];
        assert(allowed@ =~= seq!["path"]);
        assert(allowed@.map_values(|s: &str| s@) =~= seq!["path"@]);
        let f = ProtocolFailure::new("invalid_request", "sort.field is not allowed for duplicate folder members").with_field("sort.field").with_detail("allowed", texts(&allowed));
        assert(f@ =~~= allowed_failure("sort.field is not allowed for duplicate folder members"@, "sort.field"@, seq!["path"@]));
        Err(f)
    }
}

/// Distinct values have distinct wire names, so parsing a name gives back
/// the value it names.
pub proof fn lemma_folder_member_sort_names_distinct(a: DuplicateFolderMemberSortField, b: DuplicateFolderMemberSortField)
    ensures
        folder_member_sort_name_spec(a) == folder_member_sort_name_spec(b) <==> a == b,
{
    reveal_strlit("path");
}

/// `extensionMatch`: `any` member or `all` members must carry the extension.
#[derive(Clone, Copy, Debug, PartialEq, Eq, Structural)]
pub enum DuplicateFileExtensionMatchMode {
    AnyMember,
    AllMembers,
}

pub open spec fn extension_match_name_spec(v: DuplicateFileExtensionMatchMode) -> Seq<char> {
    match v {
        DuplicateFileExtensionMatchMode::AnyMember => "any"@,
        DuplicateFileExtensionMatchMode::AllMembers => "all"@,
    }
}

pub fn extension_match_name(v: DuplicateFileExtensionMatchMode) -> (r: &'static str)
    ensures
        r@ == extension_match_name_spec(v),
{
    match v {
        DuplicateFileExtensionMatchMode::AnyMember => "any",
        DuplicateFileExtensionMatchMode::AllMembers => "all",
    }
}

} // verus!
