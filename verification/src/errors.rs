//! How the store's refusals reach the client: each error of a store
//! operation becomes a structured failure with a stable code, a message
//! and the identifiers that explain it.
use vstd::prelude::*;
use crate::cursor::push_str;
use crate::failure::{failure, string_from, DetailValue, DetailView, FailureView, ProtocolFailure};
use crate::text::{decimal_int, i64_to_decimal, string_of};

verus! {

fn push_int(out: &mut Vec<char>, n: i64)
    ensures
        final(out)@ == old(out)@ + decimal_int(n as int),
{
    let d = i64_to_decimal(n);
    push_str(out, d.as_str());
}

/// The failure for a database error, given its text.
pub open spec fn database_failure(error: Seq<char>) -> FailureView {
    failure("internal_error"@, "Database operation failed: "@ + error, seq![])
}

/// A database error, given its text, as an `internal_error` failure.
pub fn internal_database_error(error: String) -> (r: ProtocolFailure)
    ensures
        r@ =~~= database_failure(error@),
{
    let mut out: Vec<char> = Vec::new();
    push_str(&mut out, "Database operation failed: ");
    push_str(&mut out, error.as_str());
    let text = string_of(&out);
    let r = ProtocolFailure { code: string_from("internal_error"), message: text, retryable: false, details: Vec::new() };
    assert(r@.details =~= Seq::<(Seq<char>, DetailView)>::empty());
    r
}

/// Why a store operation on review decisions failed.
#[derive(Debug, Clone)]
pub enum ReviewError {
    /// The text of the underlying error.
    Database(String),
    RunNotFound { run_id: i64 },
    RunNotCompleted { run_id: i64, status: String },
    GroupNotFound { run_id: i64, group_id: i64 },
    MemberNotFound { run_id: i64, group_id: i64, file_id: i64 },
    StaleRevision { expected: i64, actual: i64 },
    IdempotencyConflict { operation_id: String },
    UnsafeRemoval { group_id: i64, file_id: i64 },
    FolderGroupNotFound { run_id: i64, folder_group_id: i64 },
    FolderMemberNotFound { run_id: i64, folder_group_id: i64, folder_member_id: i64 },
    Overlap { first_kind: String, first_id: i64, second_kind: String, second_id: i64 },
    UnsafePhysicalRemoval { duplicate_group_id: i64 },
    UnsafeFolderRemoval { folder_group_id: i64 },
    OperationLocked { run_id: i64, operation_id: String },
    LiveStateConflict { file_id: i64, state: String, decision: String },
}

/// The failure each `ReviewError` is reported as.
pub open spec fn review_failure(e: ReviewError) -> FailureView {
    match e {
        ReviewError::Database(error) => database_failure(error@),
        ReviewError::RunNotFound { run_id } => failure("run_not_found"@, "Run "@ + decimal_int(run_id as int) + " was not found"@, seq![("runId"@, DetailView::Integer(run_id as int))]),
        ReviewError::RunNotCompleted { run_id, status } => failure("invalid_state"@, "Review decisions are available only for completed runs"@, seq![("runId"@, DetailView::Integer(run_id as int)), ("status"@, DetailView::Text(status@))]),
        ReviewError::GroupNotFound { run_id, group_id } => failure("duplicate_group_not_found"@, "Duplicate file group "@ + decimal_int(group_id as int) + " was not found in run "@ + decimal_int(run_id as int), seq![("runId"@, DetailView::Integer(run_id as int)), ("groupId"@, DetailView::Integer(group_id as int))]),
        ReviewError::MemberNotFound { run_id, group_id, file_id } => failure("review_member_not_found"@, "File "@ + decimal_int(file_id as int) + " is not a member of duplicate group "@ + decimal_int(group_id as int), seq![("runId"@, DetailView::Integer(run_id as int)), ("groupId"@, DetailView::Integer(group_id as int)), ("fileId"@, DetailView::Integer(file_id as int))]),
        ReviewError::StaleRevision { expected, actual } => failure("review_generation_conflict"@, "Review revision "@ + decimal_int(expected as int) + " is stale; current revision is "@ + decimal_int(actual as int), seq![("expectedRevision"@, DetailView::Integer(expected as int)), ("currentRevision"@, DetailView::Integer(actual as int))]),
        ReviewError::IdempotencyConflict { operation_id } => failure("idempotency_conflict"@, "The operationId was already used for a different review command"@, seq![("operationId"@, DetailView::Text(operation_id@))]),
        ReviewError::UnsafeRemoval { group_id, file_id } => failure("unsafe_review_decision"@, "At least one independently accessible physical copy must remain in the duplicate set"@, seq![("groupId"@, DetailView::Integer(group_id as int)), ("fileId"@, DetailView::Integer(file_id as int)), ("remainingPhysicalCopies"@, DetailView::Integer(0))]),
        ReviewError::FolderGroupNotFound { run_id, folder_group_id } => failure("duplicate_folder_group_not_found"@, "Exact-folder group "@ + decimal_int(folder_group_id as int) + " was not found in run "@ + decimal_int(run_id as int), seq![("runId"@, DetailView::Integer(run_id as int)), ("folderGroupId"@, DetailView::Integer(folder_group_id as int))]),
        ReviewError::FolderMemberNotFound { run_id, folder_group_id, folder_member_id } => failure("review_folder_member_not_found"@, "Folder copy "@ + decimal_int(folder_member_id as int) + " is not a member of exact-folder group "@ + decimal_int(folder_group_id as int), seq![("runId"@, DetailView::Integer(run_id as int)), ("folderGroupId"@, DetailView::Integer(folder_group_id as int)), ("folderMemberId"@, DetailView::Integer(folder_member_id as int))]),
        ReviewError::Overlap { first_kind, first_id, second_kind, second_id } => failure("review_overlap_conflict"@, "The requested review decision overlaps an existing file or folder decision"@, seq![("firstKind"@, DetailView::Text(first_kind@)), ("firstId"@, DetailView::Integer(first_id as int)), ("secondKind"@, DetailView::Text(second_kind@)), ("secondId"@, DetailView::Integer(second_id as int))]),
        ReviewError::UnsafePhysicalRemoval { duplicate_group_id } => failure("unsafe_review_decision"@, "At least one independently accessible physical copy must remain in every duplicate set"@, seq![("groupId"@, DetailView::Integer(duplicate_group_id as int)), ("remainingPhysicalCopies"@, DetailView::Integer(0))]),
        ReviewError::UnsafeFolderRemoval { folder_group_id } => failure("unsafe_folder_review_decision"@, "At least one intact independently accessible folder copy must remain in every exact-folder set"@, seq![("folderGroupId"@, DetailView::Integer(folder_group_id as int)), ("remainingIntactCopies"@, DetailView::Integer(0))]),
        ReviewError::OperationLocked { run_id, operation_id } => failure("recycle_operation_locked"@, "A durable recycle operation locks this reviewed plan"@, seq![("runId"@, DetailView::Integer(run_id as int)), ("recycleOperationId"@, DetailView::Text(operation_id@))]),
        ReviewError::LiveStateConflict { file_id, state, decision } => failure("review_live_state_conflict"@, "The file is not currently validated as present"@, seq![("fileId"@, DetailView::Integer(file_id as int)), ("state"@, DetailView::Text(state@)), ("decision"@, DetailView::Text(decision@))]),
    }
}

/// The failure reported for a `ReviewError`.
pub fn review_error(error: ReviewError) -> (r: ProtocolFailure)
    ensures
        r@ =~~= review_failure(error),
{
    match error {
        ReviewError::Database(error) => internal_database_error(error),
        ReviewError::RunNotFound { run_id } => {
            let mut out: Vec<char> = Vec::new();
            push_str(&mut out, "Run ");
            push_int(&mut out, run_id);
            push_str(&mut out, " was not found");
            assert(out@ =~= "Run "@ + decimal_int(run_id as int) + " was not found"@);
            let text = string_of(&out);
            let f = ProtocolFailure { code: string_from("run_not_found"), message: text, retryable: false, details: Vec::new() };
            let r = f.with_detail("runId", DetailValue::Integer(run_id));
            assert(r@.details =~= seq![("runId"@, DetailView::Integer(run_id as int))]);
            r
        },
        ReviewError::RunNotCompleted { run_id, status } => {
            let text = string_from("Review decisions are available only for completed runs");
            let f = ProtocolFailure { code: string_from("invalid_state"), message: text, retryable: false, details: Vec::new() };
            let r = f.with_detail("runId", DetailValue::Integer(run_id)).with_detail("status", DetailValue::Text(status.clone()));
            assert(r@.details =~= seq![("runId"@, DetailView::Integer(run_id as int)), ("status"@, DetailView::Text(status@))]);
            r
        },
        ReviewError::GroupNotFound { run_id, group_id } => {
            let mut out: Vec<char> = Vec::new();
            push_str(&mut out, "Duplicate file group ");
            push_int(&mut out, group_id);
            push_str(&mut out, " was not found in run ");
            push_int(&mut out, run_id);
            assert(out@ =~= "Duplicate file group "@ + decimal_int(group_id as int) + " was not found in run "@ + decimal_int(run_id as int));
            let text = string_of(&out);
            let f = ProtocolFailure { code: string_from("duplicate_group_not_found"), message: text, retryable: false, details: Vec::new() };
            let r = f.with_detail("runId", DetailValue::Integer(run_id)).with_detail("groupId", DetailValue::Integer(group_id));
            assert(r@.details =~= seq![("runId"@, DetailView::Integer(run_id as int)), ("groupId"@, DetailView::Integer(group_id as int))]);
            r
        },
        ReviewError::MemberNotFound { run_id, group_id, file_id } => {
            let mut out: Vec<char> = Vec::new();
            push_str(&mut out, "File ");
            push_int(&mut out, file_id);
            push_str(&mut out, " is not a member of duplicate group ");
            push_int(&mut out, group_id);
            assert(out@ =~= "File "@ + decimal_int(file_id as int) + " is not a member of duplicate group "@ + decimal_int(group_id as int));
            let text = string_of(&out);
            let f = ProtocolFailure { code: string_from("review_member_not_found"), message: text, retryable: false, details: Vec::new() };
            let r = f.with_detail("runId", DetailValue::Integer(run_id)).with_detail("groupId", DetailValue::Integer(group_id)).with_detail("fileId", DetailValue::Integer(file_id));
            assert(r@.details =~= seq![("runId"@, DetailView::Integer(run_id as int)), ("groupId"@, DetailView::Integer(group_id as int)), ("fileId"@, DetailView::Integer(file_id as int))]);
            r
        },
        ReviewError::StaleRevision { expected, actual } => {
            let mut out: Vec<char> = Vec::new();
            push_str(&mut out, "Review revision ");
            push_int(&mut out, expected);
            push_str(&mut out, " is stale; current revision is ");
            push_int(&mut out, actual);
            assert(out@ =~= "Review revision "@ + decimal_int(expected as int) + " is stale; current revision is "@ + decimal_int(actual as int));
            let text = string_of(&out);
            let f = ProtocolFailure { code: string_from("review_generation_conflict"), message: text, retryable: false, details: Vec::new() };
            let r = f.with_detail("expectedRevision", DetailValue::Integer(expected)).with_detail("currentRevision", DetailValue::Integer(actual));
            assert(r@.details =~= seq![("expectedRevision"@, DetailView::Integer(expected as int)), ("currentRevision"@, DetailView::Integer(actual as int))]);
            r
        },
        ReviewError::IdempotencyConflict { operation_id } => {
            let text = string_from("The operationId was already used for a different review command");
            let f = ProtocolFailure { code: string_from("idempotency_conflict"), message: text, retryable: false, details: Vec::new() };
            let r = f.with_detail("operationId", DetailValue::Text(operation_id.clone()));
            assert(r@.details =~= seq![("operationId"@, DetailView::Text(operation_id@))]);
            r
        },
        ReviewError::UnsafeRemoval { group_id, file_id } => {
            let text = string_from("At least one independently accessible physical copy must remain in the duplicate set");
            let f = ProtocolFailure { code: string_from("unsafe_review_decision"), message: text, retryable: false, details: Vec::new() };
            let r = f.with_detail("groupId", DetailValue::Integer(group_id)).with_detail("fileId", DetailValue::Integer(file_id)).with_detail("remainingPhysicalCopies", DetailValue::Integer(0));
            assert(r@.details =~= seq![("groupId"@, DetailView::Integer(group_id as int)), ("fileId"@, DetailView::Integer(file_id as int)), ("remainingPhysicalCopies"@, DetailView::Integer(0))]);
            r
        },
        ReviewError::FolderGroupNotFound { run_id, folder_group_id } => {
            let mut out: Vec<char> = Vec::new();
            push_str(&mut out, "Exact-folder group ");
            push_int(&mut out, folder_group_id);
            push_str(&mut out, " was not found in run ");
            push_int(&mut out, run_id);
            assert(out@ =~= "Exact-folder group "@ + decimal_int(folder_group_id as int) + " was not found in run "@ + decimal_int(run_id as int));
            let text = string_of(&out);
            let f = ProtocolFailure { code: string_from("duplicate_folder_group_not_found"), message: text, retryable: false, details: Vec::new() };
            let r = f.with_detail("runId", DetailValue::Integer(run_id)).with_detail("folderGroupId", DetailValue::Integer(folder_group_id));
            assert(r@.details =~= seq![("runId"@, DetailView::Integer(run_id as int)), ("folderGroupId"@, DetailView::Integer(folder_group_id as int))]);
            r
        },
        ReviewError::FolderMemberNotFound { run_id, folder_group_id, folder_member_id } => {
            let mut out: Vec<char> = Vec::new();
            push_str(&mut out, "Folder copy ");
            push_int(&mut out, folder_member_id);
            push_str(&mut out, " is not a member of exact-folder group ");
            push_int(&mut out, folder_group_id);
            assert(out@ =~= "Folder copy "@ + decimal_int(folder_member_id as int) + " is not a member of exact-folder group "@ + decimal_int(folder_group_id as int));
            let text = string_of(&out);
            let f = ProtocolFailure { code: string_from("review_folder_member_not_found"), message: text, retryable: false, details: Vec::new() };
            let r = f.with_detail("runId", DetailValue::Integer(run_id)).with_detail("folderGroupId", DetailValue::Integer(folder_group_id)).with_detail("folderMemberId", DetailValue::Integer(folder_member_id));
            assert(r@.details =~= seq![("runId"@, DetailView::Integer(run_id as int)), ("folderGroupId"@, DetailView::Integer(folder_group_id as int)), ("folderMemberId"@, DetailView::Integer(folder_member_id as int))]);
            r
        },
        ReviewError::Overlap { first_kind, first_id, second_kind, second_id } => {
            let text = string_from("The requested review decision overlaps an existing file or folder decision");
            let f = ProtocolFailure { code: string_from("review_overlap_conflict"), message: text, retryable: false, details: Vec::new() };
            let r = f.with_detail("firstKind", DetailValue::Text(first_kind.clone())).with_detail("firstId", DetailValue::Integer(first_id)).with_detail("secondKind", DetailValue::Text(second_kind.clone())).with_detail("secondId", DetailValue::Integer(second_id));
            assert(r@.details =~= seq![("firstKind"@, DetailView::Text(first_kind@)), ("firstId"@, DetailView::Integer(first_id as int)), ("secondKind"@, DetailView::Text(second_kind@)), ("secondId"@, DetailView::Integer(second_id as int))]);
            r
        },
        ReviewError::UnsafePhysicalRemoval { duplicate_group_id } => {
            let text = string_from("At least one independently accessible physical copy must remain in every duplicate set");
            let f = ProtocolFailure { code: string_from("unsafe_review_decision"), message: text, retryable: false, details: Vec::new() };
            let r = f.with_detail("groupId", DetailValue::Integer(duplicate_group_id)).with_detail("remainingPhysicalCopies", DetailValue::Integer(0));
            assert(r@.details =~= seq![("groupId"@, DetailView::Integer(duplicate_group_id as int)), ("remainingPhysicalCopies"@, DetailView::Integer(0))]);
            r
        },
        ReviewError::UnsafeFolderRemoval { folder_group_id } => {
            let text = string_from("At least one intact independently accessible folder copy must remain in every exact-folder set");
            let f = ProtocolFailure { code: string_from("unsafe_folder_review_decision"), message: text, retryable: false, details: Vec::new() };
            let r = f.with_detail("folderGroupId", DetailValue::Integer(folder_group_id)).with_detail("remainingIntactCopies", DetailValue::Integer(0));
            assert(r@.details =~= seq![("folderGroupId"@, DetailView::Integer(folder_group_id as int)), ("remainingIntactCopies"@, DetailView::Integer(0))]);
            r
        },
        ReviewError::OperationLocked { run_id, operation_id } => {
            let text = string_from("A durable recycle operation locks this reviewed plan");
            let f = ProtocolFailure { code: string_from("recycle_operation_locked"), message: text, retryable: false, details: Vec::new() };
            let r = f.with_detail("runId", DetailValue::Integer(run_id)).with_detail("recycleOperationId", DetailValue::Text(operation_id.clone()));
            assert(r@.details =~= seq![("runId"@, DetailView::Integer(run_id as int)), ("recycleOperationId"@, DetailView::Text(operation_id@))]);
            r
        },
        ReviewError::LiveStateConflict { file_id, state, decision } => {
            let text = string_from("The file is not currently validated as present");
            let f = ProtocolFailure { code: string_from("review_live_state_conflict"), message: text, retryable: false, details: Vec::new() };
            let r = f.with_detail("fileId", DetailValue::Integer(file_id)).with_detail("state", DetailValue::Text(state.clone())).with_detail("decision", DetailValue::Text(decision.clone()));
            assert(r@.details =~= seq![("fileId"@, DetailView::Integer(file_id as int)), ("state"@, DetailView::Text(state@)), ("decision"@, DetailView::Text(decision@))]);
            r
        },
    }
}

/// Why a store operation on preference rules failed.
#[derive(Debug, Clone)]
pub enum PreferenceError {
    Review(ReviewError),
    /// The text of the underlying error.
    Database(String),
    /// The text of the underlying error.
    Serialization(String),
    RunNotFound { run_id: i64 },
    RunNotCompleted { run_id: i64, status: String },
    RuleNotFound { rule_id: i64 },
    RuleArchived { rule_id: i64 },
    StaleRuleRevision { rule_id: i64, expected: i64, current: i64 },
    StaleReviewRevision { expected: i64, current: i64 },
    IdempotencyConflict { operation_id: String },
    DuplicateName { name: String },
    InvalidSelectedGroup { run_id: i64, group_id: i64 },
    InvalidRule { message: String },
    PreviewTooComplex { scoped_group_count: i64, maximum_group_count: i64, scoped_logical_path_count: i64, maximum_logical_path_count: i64 },
    PreviewConflict,
    ApplicationEmpty,
    ApplicationOverlap { file_id: i64, application_id: i64 },
    ApplicationNotFound { run_id: i64, application_id: i64 },
    ApplicationAlreadyReversed { application_id: i64 },
    OperationLocked { run_id: i64, operation_id: String },
}

/// The failure each `PreferenceError` is reported as.
pub open spec fn preference_failure(e: PreferenceError) -> FailureView {
    match e {
        PreferenceError::Review(error) => review_failure(error),
        PreferenceError::Database(error) => database_failure(error@),
        PreferenceError::Serialization(error) => failure("internal_error"@, "Rule serialization failed: "@ + error@, seq![]),
        PreferenceError::RunNotFound { run_id } => failure("run_not_found"@, "Run "@ + decimal_int(run_id as int) + " was not found"@, seq![("runId"@, DetailView::Integer(run_id as int))]),
        PreferenceError::RunNotCompleted { run_id, status } => failure("invalid_state"@, "Preference preview is available only for completed runs"@, seq![("runId"@, DetailView::Integer(run_id as int)), ("status"@, DetailView::Text(status@))]),
        PreferenceError::RuleNotFound { rule_id } => failure("preference_rule_not_found"@, "Preference rule "@ + decimal_int(rule_id as int) + " was not found"@, seq![("ruleId"@, DetailView::Integer(rule_id as int))]),
        PreferenceError::RuleArchived { rule_id } => failure("invalid_state"@, "Archived preference rules cannot be previewed or edited"@, seq![("ruleId"@, DetailView::Integer(rule_id as int)), ("state"@, DetailView::Text("archived"@))]),
        PreferenceError::StaleRuleRevision { rule_id, expected, current } => failure("preference_rule_generation_conflict"@, "The preference rule changed; reload it before continuing"@, seq![("ruleId"@, DetailView::Integer(rule_id as int)), ("expectedRevision"@, DetailView::Integer(expected as int)), ("currentRevision"@, DetailView::Integer(current as int))]),
        PreferenceError::StaleReviewRevision { expected, current } => failure("review_generation_conflict"@, "Manual review decisions changed; rerun the preview"@, seq![("expectedRevision"@, DetailView::Integer(expected as int)), ("currentRevision"@, DetailView::Integer(current as int))]),
        PreferenceError::IdempotencyConflict { operation_id } => failure("idempotency_conflict"@, "The operationId was already used for another preference-rule command payload"@, seq![("operationId"@, DetailView::Text(operation_id@))]),
        PreferenceError::DuplicateName { name } => failure("preference_rule_name_conflict"@, "Another preference rule already uses this name"@, seq![("name"@, DetailView::Text(name@))]),
        PreferenceError::InvalidSelectedGroup { run_id, group_id } => failure("invalid_scope"@, "A selected duplicate set does not belong to the completed run"@, seq![("runId"@, DetailView::Integer(run_id as int)), ("groupId"@, DetailView::Integer(group_id as int))]),
        PreferenceError::InvalidRule { message } => failure("invalid_request"@, message@, seq![]),
        PreferenceError::PreviewTooComplex { scoped_group_count, maximum_group_count, scoped_logical_path_count, maximum_logical_path_count } => failure("preview_too_complex"@, "The preference preview scope exceeds this protocol version's bounded limits"@, seq![("scopedGroupCount"@, DetailView::Integer(scoped_group_count as int)), ("maximumGroupCount"@, DetailView::Integer(maximum_group_count as int)), ("scopedLogicalPathCount"@, DetailView::Integer(scoped_logical_path_count as int)), ("maximumLogicalPathCount"@, DetailView::Integer(maximum_logical_path_count as int))]),
        PreferenceError::PreviewConflict => failure("preference_preview_conflict"@, "The preview no longer matches this rule application request; run Preview again"@, seq![]),
        PreferenceError::ApplicationEmpty => failure("rule_application_empty"@, "The preview contains no applicable rule decisions"@, seq![]),
        PreferenceError::ApplicationOverlap { file_id, application_id } => failure("rule_application_overlap"@, "Another active rule application already owns one of these decisions"@, seq![("fileId"@, DetailView::Integer(file_id as int)), ("applicationId"@, DetailView::Integer(application_id as int))]),
        PreferenceError::ApplicationNotFound { run_id, application_id } => failure("rule_application_not_found"@, "Rule application "@ + decimal_int(application_id as int) + " was not found in run "@ + decimal_int(run_id as int), seq![("runId"@, DetailView::Integer(run_id as int)), ("applicationId"@, DetailView::Integer(application_id as int))]),
        PreferenceError::ApplicationAlreadyReversed { application_id } => failure("rule_application_already_reversed"@, "This rule application has already been reversed"@, seq![("applicationId"@, DetailView::Integer(application_id as int))]),
        PreferenceError::OperationLocked { run_id, operation_id } => failure("recycle_operation_locked"@, "A durable recycle operation locks this reviewed plan"@, seq![("runId"@, DetailView::Integer(run_id as int)), ("recycleOperationId"@, DetailView::Text(operation_id@))]),
    }
}

/// The failure reported for a `PreferenceError`.
pub fn preference_error(error: PreferenceError) -> (r: ProtocolFailure)
    ensures
        r@ =~~= preference_failure(error),
{
    match error {
        PreferenceError::Review(error) => review_error(error),
        PreferenceError::Database(error) => internal_database_error(error),
        PreferenceError::Serialization(error) => {
            let mut out: Vec<char> = Vec::new();
            push_str(&mut out, "Rule serialization failed: ");
            push_str(&mut out, error.as_str());
            assert(out@ =~= "Rule serialization failed: "@ + error@);
            let text = string_of(&out);
            let f = ProtocolFailure { code: string_from("internal_error"), message: text, retryable: false, details: Vec::new() };
            let r = f;
            assert(r@.details =~= seq![]);
            r
        },
        PreferenceError::RunNotFound { run_id } => {
            let mut out: Vec<char> = Vec::new();
            push_str(&mut out, "Run ");
            push_int(&mut out, run_id);
            push_str(&mut out, " was not found");
            assert(out@ =~= "Run "@ + decimal_int(run_id as int) + " was not found"@);
            let text = string_of(&out);
            let f = ProtocolFailure { code: string_from("run_not_found"), message: text, retryable: false, details: Vec::new() };
            let r = f.with_detail("runId", DetailValue::Integer(run_id));
            assert(r@.details =~= seq![("runId"@, DetailView::Integer(run_id as int))]);
            r
        },
        PreferenceError::RunNotCompleted { run_id, status } => {
            let text = string_from("Preference preview is available only for completed runs");
            let f = ProtocolFailure { code: string_from("invalid_state"), message: text, retryable: false, details: Vec::new() };
            let r = f.with_detail("runId", DetailValue::Integer(run_id)).with_detail("status", DetailValue::Text(status.clone()));
            assert(r@.details =~= seq![("runId"@, DetailView::Integer(run_id as int)), ("status"@, DetailView::Text(status@))]);
            r
        },
        PreferenceError::RuleNotFound { rule_id } => {
            let mut out: Vec<char> = Vec::new();
            push_str(&mut out, "Preference rule ");
            push_int(&mut out, rule_id);
            push_str(&mut out, " was not found");
            assert(out@ =~= "Preference rule "@ + decimal_int(rule_id as int) + " was not found"@);
            let text = string_of(&out);
            let f = ProtocolFailure { code: string_from("preference_rule_not_found"), message: text, retryable: false, details: Vec::new() };
            let r = f.with_detail("ruleId", DetailValue::Integer(rule_id));
            assert(r@.details =~= seq![("ruleId"@, DetailView::Integer(rule_id as int))]);
            r
        },
        PreferenceError::RuleArchived { rule_id } => {
            let text = string_from("Archived preference rules cannot be previewed or edited");
            let f = ProtocolFailure { code: string_from("invalid_state"), message: text, retryable: false, details: Vec::new() };
            let r = f.with_detail("ruleId", DetailValue::Integer(rule_id)).with_detail("state", DetailValue::Text(string_from("archived")));
            assert(r@.details =~= seq![("ruleId"@, DetailView::Integer(rule_id as int)), ("state"@, DetailView::Text("archived"@))]);
            r
        },
        PreferenceError::StaleRuleRevision { rule_id, expected, current } => {
            let text = string_from("The preference rule changed; reload it before continuing");
            let f = ProtocolFailure { code: string_from("preference_rule_generation_conflict"), message: text, retryable: false, details: Vec::new() };
            let r = f.with_detail("ruleId", DetailValue::Integer(rule_id)).with_detail("expectedRevision", DetailValue::Integer(expected)).with_detail("currentRevision", DetailValue::Integer(current));
            assert(r@.details =~= seq![("ruleId"@, DetailView::Integer(rule_id as int)), ("expectedRevision"@, DetailView::Integer(expected as int)), ("currentRevision"@, DetailView::Integer(current as int))]);
            r
        },
        PreferenceError::StaleReviewRevision { expected, current } => {
            let text = string_from("Manual review decisions changed; rerun the preview");
            let f = ProtocolFailure { code: string_from("review_generation_conflict"), message: text, retryable: false, details: Vec::new() };
            let r = f.with_detail("expectedRevision", DetailValue::Integer(expected)).with_detail("currentRevision", DetailValue::Integer(current));
            assert(r@.details =~= seq![("expectedRevision"@, DetailView::Integer(expected as int)), ("currentRevision"@, DetailView::Integer(current as int))]);
            r
        },
        PreferenceError::IdempotencyConflict { operation_id } => {
            let text = string_from("The operationId was already used for another preference-rule command payload");
            let f = ProtocolFailure { code: string_from("idempotency_conflict"), message: text, retryable: false, details: Vec::new() };
            let r = f.with_detail("operationId", DetailValue::Text(operation_id.clone()));
            assert(r@.details =~= seq![("operationId"@, DetailView::Text(operation_id@))]);
            r
        },
        PreferenceError::DuplicateName { name } => {
            let text = string_from("Another preference rule already uses this name");
            let f = ProtocolFailure { code: string_from("preference_rule_name_conflict"), message: text, retryable: false, details: Vec::new() };
            let r = f.with_detail("name", DetailValue::Text(name.clone()));
            assert(r@.details =~= seq![("name"@, DetailView::Text(name@))]);
            r
        },
        PreferenceError::InvalidSelectedGroup { run_id, group_id } => {
            let text = string_from("A selected duplicate set does not belong to the completed run");
            let f = ProtocolFailure { code: string_from("invalid_scope"), message: text, retryable: false, details: Vec::new() };
            let r = f.with_detail("runId", DetailValue::Integer(run_id)).with_detail("groupId", DetailValue::Integer(group_id));
            assert(r@.details =~= seq![("runId"@, DetailView::Integer(run_id as int)), ("groupId"@, DetailView::Integer(group_id as int))]);
            r
        },
        PreferenceError::InvalidRule { message } => {
            let text = message.clone();
            let f = ProtocolFailure { code: string_from("invalid_request"), message: text, retryable: false, details: Vec::new() };
            let r = f;
            assert(r@.details =~= seq![]);
            r
        },
        PreferenceError::PreviewTooComplex { scoped_group_count, maximum_group_count, scoped_logical_path_count, maximum_logical_path_count } => {
            let text = string_from("The preference preview scope exceeds this protocol version's bounded limits");
            let f = ProtocolFailure { code: string_from("preview_too_complex"), message: text, retryable: false, details: Vec::new() };
            let r = f.with_detail("scopedGroupCount", DetailValue::Integer(scoped_group_count)).with_detail("maximumGroupCount", DetailValue::Integer(maximum_group_count)).with_detail("scopedLogicalPathCount", DetailValue::Integer(scoped_logical_path_count)).with_detail("maximumLogicalPathCount", DetailValue::Integer(maximum_logical_path_count));
            assert(r@.details =~= seq![("scopedGroupCount"@, DetailView::Integer(scoped_group_count as int)), ("maximumGroupCount"@, DetailView::Integer(maximum_group_count as int)), ("scopedLogicalPathCount"@, DetailView::Integer(scoped_logical_path_count as int)), ("maximumLogicalPathCount"@, DetailView::Integer(maximum_logical_path_count as int))]);
            r
        },
        PreferenceError::PreviewConflict => {
            let text = string_from("The preview no longer matches this rule application request; run Preview again");
            let f = ProtocolFailure { code: string_from("preference_preview_conflict"), message: text, retryable: false, details: Vec::new() };
            let r = f;
            assert(r@.details =~= seq![]);
            r
        },
        PreferenceError::ApplicationEmpty => {
            let text = string_from("The preview contains no applicable rule decisions");
            let f = ProtocolFailure { code: string_from("rule_application_empty"), message: text, retryable: false, details: Vec::new() };
            let r = f;
            assert(r@.details =~= seq![]);
            r
        },
        PreferenceError::ApplicationOverlap { file_id, application_id } => {
            let text = string_from("Another active rule application already owns one of these decisions");
            let f = ProtocolFailure { code: string_from("rule_application_overlap"), message: text, retryable: false, details: Vec::new() };
            let r = f.with_detail("fileId", DetailValue::Integer(file_id)).with_detail("applicationId", DetailValue::Integer(application_id));
            assert(r@.details =~= seq![("fileId"@, DetailView::Integer(file_id as int)), ("applicationId"@, DetailView::Integer(application_id as int))]);
            r
        },
        PreferenceError::ApplicationNotFound { run_id, application_id } => {
            let mut out: Vec<char> = Vec::new();
            push_str(&mut out, "Rule application ");
            push_int(&mut out, application_id);
            push_str(&mut out, " was not found in run ");
            push_int(&mut out, run_id);
            assert(out@ =~= "Rule application "@ + decimal_int(application_id as int) + " was not found in run "@ + decimal_int(run_id as int));
            let text = string_of(&out);
            let f = ProtocolFailure { code: string_from("rule_application_not_found"), message: text, retryable: false, details: Vec::new() };
            let r = f.with_detail("runId", DetailValue::Integer(run_id)).with_detail("applicationId", DetailValue::Integer(application_id));
            assert(r@.details =~= seq![("runId"@, DetailView::Integer(run_id as int)), ("applicationId"@, DetailView::Integer(application_id as int))]);
            r
        },
        PreferenceError::ApplicationAlreadyReversed { application_id } => {
            let text = string_from("This rule application has already been reversed");
            let f = ProtocolFailure { code: string_from("rule_application_already_reversed"), message: text, retryable: false, details: Vec::new() };
            let r = f.with_detail("applicationId", DetailValue::Integer(application_id));
            assert(r@.details =~= seq![("applicationId"@, DetailView::Integer(application_id as int))]);
            r
        },
        PreferenceError::OperationLocked { run_id, operation_id } => {
            let text = string_from("A durable recycle operation locks this reviewed plan");
            let f = ProtocolFailure { code: string_from("recycle_operation_locked"), message: text, retryable: false, details: Vec::new() };
            let r = f.with_detail("runId", DetailValue::Integer(run_id)).with_detail("recycleOperationId", DetailValue::Text(operation_id.clone()));
            assert(r@.details =~= seq![("runId"@, DetailView::Integer(run_id as int)), ("recycleOperationId"@, DetailView::Text(operation_id@))]);
            r
        },
    }
}

/// Why a store operation on recycle operations failed.
#[derive(Debug, Clone)]
pub enum RecycleOperationError {
    /// The text of the underlying error.
    Database(String),
    InvalidRequest { message: String },
    RunNotFound { run_id: i64 },
    PreflightNotFound { preflight_id: i64 },
    PreflightNotCompleted { preflight_id: i64, status: String },
    LatestPreflightRequired { preflight_id: i64, run_id: i64 },
    StaleReviewRevision { expected: i64, current: i64 },
    PreflightExpired { preflight_id: i64 },
    IneligiblePreflight { preflight_id: i64, reason: String },
    IdempotencyConflict { operation_id: String },
    NotFound { operation_id: String },
    InvalidState { operation_id: String, status: String },
    OperationLocked { run_id: i64, operation_id: String },
    ConfirmationExpired { operation_id: String },
    SubmissionExpired { operation_id: String },
    ItemNotFound { operation_id: String, item_id: i64 },
    BatchNotFound { operation_id: String, batch_id: i64 },
    AdmissionFailed { operation_id: String, item_id: i64, reason_code: String },
    AdmissionValidationFailed { operation_id: String, message: String },
}

/// The failure each `RecycleOperationError` is reported as.
pub open spec fn recycle_operation_failure(e: RecycleOperationError) -> FailureView {
    match e {
        RecycleOperationError::Database(error) => database_failure(error@),
        RecycleOperationError::InvalidRequest { message } => failure("invalid_request"@, message@, seq![]),
        RecycleOperationError::RunNotFound { run_id } => failure("run_not_found"@, "Run "@ + decimal_int(run_id as int) + " was not found"@, seq![("runId"@, DetailView::Integer(run_id as int))]),
        RecycleOperationError::PreflightNotFound { preflight_id } => failure("preflight_not_found"@, "Preflight "@ + decimal_int(preflight_id as int) + " was not found"@, seq![("preflightId"@, DetailView::Integer(preflight_id as int))]),
        RecycleOperationError::PreflightNotCompleted { preflight_id, status } => failure("operation_preflight_incomplete"@, "Recycle operation preparation requires a completed preflight"@, seq![("preflightId"@, DetailView::Integer(preflight_id as int)), ("status"@, DetailView::Text(status@))]),
        RecycleOperationError::LatestPreflightRequired { preflight_id, run_id } => failure("operation_preflight_superseded"@, "A newer preflight generation exists; inspect it before continuing"@, seq![("preflightId"@, DetailView::Integer(preflight_id as int)), ("runId"@, DetailView::Integer(run_id as int))]),
        RecycleOperationError::StaleReviewRevision { expected, current } => failure("review_generation_conflict"@, "The review plan changed; run preflight again"@, seq![("expectedRevision"@, DetailView::Integer(expected as int)), ("currentRevision"@, DetailView::Integer(current as int))]),
        RecycleOperationError::PreflightExpired { preflight_id } => failure("operation_preflight_expired"@, "The completed preflight is outside the preparation freshness lease"@, seq![("preflightId"@, DetailView::Integer(preflight_id as int)), ("freshnessSeconds"@, DetailView::Integer(300))]),
        RecycleOperationError::IneligiblePreflight { preflight_id, reason } => failure("operation_preflight_ineligible"@, "The complete reviewed plan is not eligible for operation preparation"@, seq![("preflightId"@, DetailView::Integer(preflight_id as int)), ("reason"@, DetailView::Text(reason@))]),
        RecycleOperationError::IdempotencyConflict { operation_id } => failure("idempotency_conflict"@, "The operation ID was already used with another recycle-operation payload"@, seq![("operationId"@, DetailView::Text(operation_id@))]),
        RecycleOperationError::NotFound { operation_id } => failure("recycle_operation_not_found"@, "Recycle operation "@ + operation_id@ + " was not found"@, seq![("recycleOperationId"@, DetailView::Text(operation_id@))]),
        RecycleOperationError::InvalidState { operation_id, status } => failure("recycle_operation_invalid_state"@, "The recycle operation cannot perform this transition"@, seq![("recycleOperationId"@, DetailView::Text(operation_id@)), ("status"@, DetailView::Text(status@))]),
        RecycleOperationError::OperationLocked { run_id, operation_id } => failure("recycle_operation_locked"@, "Another durable recycle operation locks this reviewed plan"@, seq![("runId"@, DetailView::Integer(run_id as int)), ("recycleOperationId"@, DetailView::Text(operation_id@))]),
        RecycleOperationError::ConfirmationExpired { operation_id } => failure("recycle_operation_confirmation_expired"@, "The final confirmation lease expired; run preflight again"@, seq![("recycleOperationId"@, DetailView::Text(operation_id@))]),
        RecycleOperationError::SubmissionExpired { operation_id } => failure("recycle_operation_submission_expired"@, "The provisional batch-admission lease expired before Shell work could start"@, seq![("recycleOperationId"@, DetailView::Text(operation_id@)), ("freshnessSeconds"@, DetailView::Integer(30))]),
        RecycleOperationError::ItemNotFound { operation_id, item_id } => failure("recycle_operation_item_not_found"@, "The reported item does not belong to this recycle operation"@, seq![("recycleOperationId"@, DetailView::Text(operation_id@)), ("itemId"@, DetailView::Integer(item_id as int))]),
        RecycleOperationError::BatchNotFound { operation_id, batch_id } => failure("recycle_operation_batch_not_found"@, "The reported batch does not belong to this recycle operation"@, seq![("recycleOperationId"@, DetailView::Text(operation_id@)), ("batchId"@, DetailView::Integer(batch_id as int))]),
        RecycleOperationError::AdmissionFailed { operation_id, item_id, reason_code } => failure("recycle_operation_admission_failed"@, "Fresh admission rejected item "@ + decimal_int(item_id as int) + ": "@ + reason_code@, seq![("recycleOperationId"@, DetailView::Text(operation_id@)), ("itemId"@, DetailView::Integer(item_id as int)), ("reasonCode"@, DetailView::Text(reason_code@))]),
        RecycleOperationError::AdmissionValidationFailed { operation_id, message } => failure("recycle_operation_admission_unavailable"@, message@, seq![("recycleOperationId"@, DetailView::Text(operation_id@))]),
    }
}

/// The failure reported for a `RecycleOperationError`.
pub fn recycle_operation_error(error: RecycleOperationError) -> (r: ProtocolFailure)
    ensures
        r@ =~~= recycle_operation_failure(error),
{
    match error {
        RecycleOperationError::Database(error) => internal_database_error(error),
        RecycleOperationError::InvalidRequest { message } => {
            let text = message.clone();
            let f = ProtocolFailure { code: string_from("invalid_request"), message: text, retryable: false, details: Vec::new() };
            let r = f;
            assert(r@.details =~= seq![]);
            r
        },
        RecycleOperationError::RunNotFound { run_id } => {
            let mut out: Vec<char> = Vec::new();
            push_str(&mut out, "Run ");
            push_int(&mut out, run_id);
            push_str(&mut out, " was not found");
            assert(out@ =~= "Run "@ + decimal_int(run_id as int) + " was not found"@);
            let text = string_of(&out);
            let f = ProtocolFailure { code: string_from("run_not_found"), message: text, retryable: false, details: Vec::new() };
            let r = f.with_detail("runId", DetailValue::Integer(run_id));
            assert(r@.details =~= seq![("runId"@, DetailView::Integer(run_id as int))]);
            r
        },
        RecycleOperationError::PreflightNotFound { preflight_id } => {
            let mut out: Vec<char> = Vec::new();
            push_str(&mut out, "Preflight ");
            push_int(&mut out, preflight_id);
            push_str(&mut out, " was not found");
            assert(out@ =~= "Preflight "@ + decimal_int(preflight_id as int) + " was not found"@);
            let text = string_of(&out);
            let f = ProtocolFailure { code: string_from("preflight_not_found"), message: text, retryable: false, details: Vec::new() };
            let r = f.with_detail("preflightId", DetailValue::Integer(preflight_id));
            assert(r@.details =~= seq![("preflightId"@, DetailView::Integer(preflight_id as int))]);
            r
        },
        RecycleOperationError::PreflightNotCompleted { preflight_id, status } => {
            let text = string_from("Recycle operation preparation requires a completed preflight");
            let f = ProtocolFailure { code: string_from("operation_preflight_incomplete"), message: text, retryable: false, details: Vec::new() };
            let r = f.with_detail("preflightId", DetailValue::Integer(preflight_id)).with_detail("status", DetailValue::Text(status.clone()));
            assert(r@.details =~= seq![("preflightId"@, DetailView::Integer(preflight_id as int)), ("status"@, DetailView::Text(status@))]);
            r
        },
        RecycleOperationError::LatestPreflightRequired { preflight_id, run_id } => {
            let text = string_from("A newer preflight generation exists; inspect it before continuing");
            let f = ProtocolFailure { code: string_from("operation_preflight_superseded"), message: text, retryable: false, details: Vec::new() };
            let r = f.with_detail("preflightId", DetailValue::Integer(preflight_id)).with_detail("runId", DetailValue::Integer(run_id));
            assert(r@.details =~= seq![("preflightId"@, DetailView::Integer(preflight_id as int)), ("runId"@, DetailView::Integer(run_id as int))]);
            r
        },
        RecycleOperationError::StaleReviewRevision { expected, current } => {
            let text = string_from("The review plan changed; run preflight again");
            let f = ProtocolFailure { code: string_from("review_generation_conflict"), message: text, retryable: false, details: Vec::new() };
            let r = f.with_detail("expectedRevision", DetailValue::Integer(expected)).with_detail("currentRevision", DetailValue::Integer(current));
            assert(r@.details =~= seq![("expectedRevision"@, DetailView::Integer(expected as int)), ("currentRevision"@, DetailView::Integer(current as int))]);
            r
        },
        RecycleOperationError::PreflightExpired { preflight_id } => {
            let text = string_from("The completed preflight is outside the preparation freshness lease");
            let f = ProtocolFailure { code: string_from("operation_preflight_expired"), message: text, retryable: false, details: Vec::new() };
            let r = f.with_detail("preflightId", DetailValue::Integer(preflight_id)).with_detail("freshnessSeconds", DetailValue::Integer(300));
            assert(r@.details =~= seq![("preflightId"@, DetailView::Integer(preflight_id as int)), ("freshnessSeconds"@, DetailView::Integer(300))]);
            r
        },
        RecycleOperationError::IneligiblePreflight { preflight_id, reason } => {
            let text = string_from("The complete reviewed plan is not eligible for operation preparation");
            let f = ProtocolFailure { code: string_from("operation_preflight_ineligible"), message: text, retryable: false, details: Vec::new() };
            let r = f.with_detail("preflightId", DetailValue::Integer(preflight_id)).with_detail("reason", DetailValue::Text(reason.clone()));
            assert(r@.details =~= seq![("preflightId"@, DetailView::Integer(preflight_id as int)), ("reason"@, DetailView::Text(reason@))]);
            r
        },
        RecycleOperationError::IdempotencyConflict { operation_id } => {
            let text = string_from("The operation ID was already used with another recycle-operation payload");
            let f = ProtocolFailure { code: string_from("idempotency_conflict"), message: text, retryable: false, details: Vec::new() };
            let r = f.with_detail("operationId", DetailValue::Text(operation_id.clone()));
            assert(r@.details =~= seq![("operationId"@, DetailView::Text(operation_id@))]);
            r
        },
        RecycleOperationError::NotFound { operation_id } => {
            let mut out: Vec<char> = Vec::new();
            push_str(&mut out, "Recycle operation ");
            push_str(&mut out, operation_id.as_str());
            push_str(&mut out, " was not found");
            assert(out@ =~= "Recycle operation "@ + operation_id@ + " was not found"@);
            let text = string_of(&out);
            let f = ProtocolFailure { code: string_from("recycle_operation_not_found"), message: text, retryable: false, details: Vec::new() };
            let r = f.with_detail("recycleOperationId", DetailValue::Text(operation_id.clone()));
            assert(r@.details =~= seq![("recycleOperationId"@, DetailView::Text(operation_id@))]);
            r
        },
        RecycleOperationError::InvalidState { operation_id, status } => {
            let text = string_from("The recycle operation cannot perform this transition");
            let f = ProtocolFailure { code: string_from("recycle_operation_invalid_state"), message: text, retryable: false, details: Vec::new() };
            let r = f.with_detail("recycleOperationId", DetailValue::Text(operation_id.clone())).with_detail("status", DetailValue::Text(status.clone()));
            assert(r@.details =~= seq![("recycleOperationId"@, DetailView::Text(operation_id@)), ("status"@, DetailView::Text(status@))]);
            r
        },
        RecycleOperationError::OperationLocked { run_id, operation_id } => {
            let text = string_from("Another durable recycle operation locks this reviewed plan");
            let f = ProtocolFailure { code: string_from("recycle_operation_locked"), message: text, retryable: false, details: Vec::new() };
            let r = f.with_detail("runId", DetailValue::Integer(run_id)).with_detail("recycleOperationId", DetailValue::Text(operation_id.clone()));
            assert(r@.details =~= seq![("runId"@, DetailView::Integer(run_id as int)), ("recycleOperationId"@, DetailView::Text(operation_id@))]);
            r
        },
        RecycleOperationError::ConfirmationExpired { operation_id } => {
            let text = string_from("The final confirmation lease expired; run preflight again");
            let f = ProtocolFailure { code: string_from("recycle_operation_confirmation_expired"), message: text, retryable: false, details: Vec::new() };
            let r = f.with_detail("recycleOperationId", DetailValue::Text(operation_id.clone()));
            assert(r@.details =~= seq![("recycleOperationId"@, DetailView::Text(operation_id@))]);
            r
        },
        RecycleOperationError::SubmissionExpired { operation_id } => {
            let text = string_from("The provisional batch-admission lease expired before Shell work could start");
            let f = ProtocolFailure { code: string_from("recycle_operation_submission_expired"), message: text, retryable: false, details: Vec::new() };
            let r = f.with_detail("recycleOperationId", DetailValue::Text(operation_id.clone())).with_detail("freshnessSeconds", DetailValue::Integer(30));
            assert(r@.details =~= seq![("recycleOperationId"@, DetailView::Text(operation_id@)), ("freshnessSeconds"@, DetailView::Integer(30))]);
            r
        },
        RecycleOperationError::ItemNotFound { operation_id, item_id } => {
            let text = string_from("The reported item does not belong to this recycle operation");
            let f = ProtocolFailure { code: string_from("recycle_operation_item_not_found"), message: text, retryable: false, details: Vec::new() };
            let r = f.with_detail("recycleOperationId", DetailValue::Text(operation_id.clone())).with_detail("itemId", DetailValue::Integer(item_id));
            assert(r@.details =~= seq![("recycleOperationId"@, DetailView::Text(operation_id@)), ("itemId"@, DetailView::Integer(item_id as int))]);
            r
        },
        RecycleOperationError::BatchNotFound { operation_id, batch_id } => {
            let text = string_from("The reported batch does not belong to this recycle operation");
            let f = ProtocolFailure { code: string_from("recycle_operation_batch_not_found"), message: text, retryable: false, details: Vec::new() };
            let r = f.with_detail("recycleOperationId", DetailValue::Text(operation_id.clone())).with_detail("batchId", DetailValue::Integer(batch_id));
            assert(r@.details =~= seq![("recycleOperationId"@, DetailView::Text(operation_id@)), ("batchId"@, DetailView::Integer(batch_id as int))]);
            r
        },
        RecycleOperationError::AdmissionFailed { operation_id, item_id, reason_code } => {
            let mut out: Vec<char> = Vec::new();
            push_str(&mut out, "Fresh admission rejected item ");
            push_int(&mut out, item_id);
            push_str(&mut out, ": ");
            push_str(&mut out, reason_code.as_str());
            assert(out@ =~= "Fresh admission rejected item "@ + decimal_int(item_id as int) + ": "@ + reason_code@);
            let text = string_of(&out);
            let f = ProtocolFailure { code: string_from("recycle_operation_admission_failed"), message: text, retryable: false, details: Vec::new() };
            let r = f.with_detail("recycleOperationId", DetailValue::Text(operation_id.clone())).with_detail("itemId", DetailValue::Integer(item_id)).with_detail("reasonCode", DetailValue::Text(reason_code.clone()));
            assert(r@.details =~= seq![("recycleOperationId"@, DetailView::Text(operation_id@)), ("itemId"@, DetailView::Integer(item_id as int)), ("reasonCode"@, DetailView::Text(reason_code@))]);
            r
        },
        RecycleOperationError::AdmissionValidationFailed { operation_id, message } => {
            let text = message.clone();
            let f = ProtocolFailure { code: string_from("recycle_operation_admission_unavailable"), message: text, retryable: false, details: Vec::new() };
            let r = f.with_detail("recycleOperationId", DetailValue::Text(operation_id.clone()));
            assert(r@.details =~= seq![("recycleOperationId"@, DetailView::Text(operation_id@))]);
            r
        },
    }
}

/// Why a store operation on preflights failed.
#[derive(Debug, Clone)]
pub enum PreflightError {
    /// The text of the underlying error.
    Database(String),
    Review(ReviewError),
    RunNotFound { run_id: i64 },
    RunNotCompleted { run_id: i64, status: String },
    PlanNotFound { run_id: i64 },
    StaleReviewRevision { expected: i64, current: i64 },
    EmptyPlan,
    IdempotencyConflict { operation_id: String },
    NotFound { preflight_id: i64 },
    InvalidState { preflight_id: i64, status: String },
    SnapshotConflict { message: String },
    InvalidRequest { message: String },
    OperationLocked { run_id: i64, operation_id: String },
}

/// The failure each `PreflightError` is reported as.
pub open spec fn preflight_failure(e: PreflightError) -> FailureView {
    match e {
        PreflightError::Database(error) => database_failure(error@),
        PreflightError::Review(error) => review_failure(error),
        PreflightError::RunNotFound { run_id } => failure("run_not_found"@, "Run "@ + decimal_int(run_id as int) + " was not found"@, seq![("runId"@, DetailView::Integer(run_id as int))]),
        PreflightError::RunNotCompleted { run_id, status } => failure("invalid_state"@, "Preflight is available only for completed runs"@, seq![("runId"@, DetailView::Integer(run_id as int)), ("status"@, DetailView::Text(status@))]),
        PreflightError::PlanNotFound { run_id } => failure("preflight_empty"@, "Review at least one removal before starting preflight"@, seq![("runId"@, DetailView::Integer(run_id as int))]),
        PreflightError::StaleReviewRevision { expected, current } => failure("review_generation_conflict"@, "The review plan changed; reload it before starting preflight"@, seq![("expectedRevision"@, DetailView::Integer(expected as int)), ("currentRevision"@, DetailView::Integer(current as int))]),
        PreflightError::EmptyPlan => failure("preflight_empty"@, "Review at least one removal before starting preflight"@, seq![]),
        PreflightError::IdempotencyConflict { operation_id } => failure("operation_conflict"@, "The operationId was already used for another preflight payload"@, seq![("operationId"@, DetailView::Text(operation_id@))]),
        PreflightError::NotFound { preflight_id } => failure("preflight_not_found"@, "Preflight "@ + decimal_int(preflight_id as int) + " was not found"@, seq![("preflightId"@, DetailView::Integer(preflight_id as int))]),
        PreflightError::InvalidState { preflight_id, status } => failure("preflight_not_cancellable"@, "Preflight "@ + decimal_int(preflight_id as int) + " is already "@ + status@, seq![("preflightId"@, DetailView::Integer(preflight_id as int)), ("status"@, DetailView::Text(status@))]),
        PreflightError::SnapshotConflict { message } => failure("preflight_snapshot_conflict"@, "The reviewed plan could not be frozen safely"@, seq![("reason"@, DetailView::Text(message@))]),
        PreflightError::InvalidRequest { message } => failure("invalid_request"@, message@, seq![]),
        PreflightError::OperationLocked { run_id, operation_id } => failure("recycle_operation_locked"@, "A durable recycle operation locks this reviewed plan"@, seq![("runId"@, DetailView::Integer(run_id as int)), ("recycleOperationId"@, DetailView::Text(operation_id@))]),
    }
}

/// The failure reported for a `PreflightError`.
pub fn preflight_error(error: PreflightError) -> (r: ProtocolFailure)
    ensures
        r@ =~~= preflight_failure(error),
{
    match error {
        PreflightError::Database(error) => internal_database_error(error),
        PreflightError::Review(error) => review_error(error),
        PreflightError::RunNotFound { run_id } => {
            let mut out: Vec<char> = Vec::new();
            push_str(&mut out, "Run ");
            push_int(&mut out, run_id);
            push_str(&mut out, " was not found");
            assert(out@ =~= "Run "@ + decimal_int(run_id as int) + " was not found"@);
            let text = string_of(&out);
            let f = ProtocolFailure { code: string_from("run_not_found"), message: text, retryable: false, details: Vec::new() };
            let r = f.with_detail("runId", DetailValue::Integer(run_id));
            assert(r@.details =~= seq![("runId"@, DetailView::Integer(run_id as int))]);
            r
        },
        PreflightError::RunNotCompleted { run_id, status } => {
            let text = string_from("Preflight is available only for completed runs");
            let f = ProtocolFailure { code: string_from("invalid_state"), message: text, retryable: false, details: Vec::new() };
            let r = f.with_detail("runId", DetailValue::Integer(run_id)).with_detail("status", DetailValue::Text(status.clone()));
            assert(r@.details =~= seq![("runId"@, DetailView::Integer(run_id as int)), ("status"@, DetailView::Text(status@))]);
            r
        },
        PreflightError::PlanNotFound { run_id } => {
            let text = string_from("Review at least one removal before starting preflight");
            let f = ProtocolFailure { code: string_from("preflight_empty"), message: text, retryable: false, details: Vec::new() };
            let r = f.with_detail("runId", DetailValue::Integer(run_id));
            assert(r@.details =~= seq![("runId"@, DetailView::Integer(run_id as int))]);
            r
        },
        PreflightError::StaleReviewRevision { expected, current } => {
            let text = string_from("The review plan changed; reload it before starting preflight");
            let f = ProtocolFailure { code: string_from("review_generation_conflict"), message: text, retryable: false, details: Vec::new() };
            let r = f.with_detail("expectedRevision", DetailValue::Integer(expected)).with_detail("currentRevision", DetailValue::Integer(current));
            assert(r@.details =~= seq![("expectedRevision"@, DetailView::Integer(expected as int)), ("currentRevision"@, DetailView::Integer(current as int))]);
            r
        },
        PreflightError::EmptyPlan => {
            let text = string_from("Review at least one removal before starting preflight");
            let f = ProtocolFailure { code: string_from("preflight_empty"), message: text, retryable: false, details: Vec::new() };
            let r = f;
            assert(r@.details =~= seq![]);
            r
        },
        PreflightError::IdempotencyConflict { operation_id } => {
            let text = string_from("The operationId was already used for another preflight payload");
            let f = ProtocolFailure { code: string_from("operation_conflict"), message: text, retryable: false, details: Vec::new() };
            let r = f.with_detail("operationId", DetailValue::Text(operation_id.clone()));
            assert(r@.details =~= seq![("operationId"@, DetailView::Text(operation_id@))]);
            r
        },
        PreflightError::NotFound { preflight_id } => {
            let mut out: Vec<char> = Vec::new();
            push_str(&mut out, "Preflight ");
            push_int(&mut out, preflight_id);
            push_str(&mut out, " was not found");
            assert(out@ =~= "Preflight "@ + decimal_int(preflight_id as int) + " was not found"@);
            let text = string_of(&out);
            let f = ProtocolFailure { code: string_from("preflight_not_found"), message: text, retryable: false, details: Vec::new() };
            let r = f.with_detail("preflightId", DetailValue::Integer(preflight_id));
            assert(r@.details =~= seq![("preflightId"@, DetailView::Integer(preflight_id as int))]);
            r
        },
        PreflightError::InvalidState { preflight_id, status } => {
            let mut out: Vec<char> = Vec::new();
            push_str(&mut out, "Preflight ");
            push_int(&mut out, preflight_id);
            push_str(&mut out, " is already ");
            push_str(&mut out, status.as_str());
            assert(out@ =~= "Preflight "@ + decimal_int(preflight_id as int) + " is already "@ + status@);
            let text = string_of(&out);
            let f = ProtocolFailure { code: string_from("preflight_not_cancellable"), message: text, retryable: false, details: Vec::new() };
            let r = f.with_detail("preflightId", DetailValue::Integer(preflight_id)).with_detail("status", DetailValue::Text(status.clone()));
            assert(r@.details =~= seq![("preflightId"@, DetailView::Integer(preflight_id as int)), ("status"@, DetailView::Text(status@))]);
            r
        },
        PreflightError::SnapshotConflict { message } => {
            let text = string_from("The reviewed plan could not be frozen safely");
            let f = ProtocolFailure { code: string_from("preflight_snapshot_conflict"), message: text, retryable: false, details: Vec::new() };
            let r = f.with_detail("reason", DetailValue::Text(message.clone()));
            assert(r@.details =~= seq![("reason"@, DetailView::Text(message@))]);
            r
        },
        PreflightError::InvalidRequest { message } => {
            let text = message.clone();
            let f = ProtocolFailure { code: string_from("invalid_request"), message: text, retryable: false, details: Vec::new() };
            let r = f;
            assert(r@.details =~= seq![]);
            r
        },
        PreflightError::OperationLocked { run_id, operation_id } => {
            let text = string_from("A durable recycle operation locks this reviewed plan");
            let f = ProtocolFailure { code: string_from("recycle_operation_locked"), message: text, retryable: false, details: Vec::new() };
            let r = f.with_detail("runId", DetailValue::Integer(run_id)).with_detail("recycleOperationId", DetailValue::Text(operation_id.clone()));
            assert(r@.details =~= seq![("runId"@, DetailView::Integer(run_id as int)), ("recycleOperationId"@, DetailView::Text(operation_id@))]);
            r
        },
    }
}

/// Why a store operation on recovery reviews failed.
#[derive(Debug, Clone)]
pub enum RecoveryReviewError {
    /// The text of the underlying error.
    Database(String),
    InvalidRequest { message: String },
    OperationNotFound { operation_id: String },
    InvalidOperationState { operation_id: String, status: String },
    ItemNotFound { operation_id: String, item_id: i64 },
    NonUnknownItem { operation_id: String, item_id: i64, result_status: String },
    ObservationNotFound { observation_id: i64 },
    SupersessionConflict { observation_id: i64, item_id: i64 },
    CurrentObservationExists { item_id: i64, observation_id: i64 },
    IdempotencyConflict { request_id: String },
}

/// The failure each `RecoveryReviewError` is reported as.
pub open spec fn recovery_review_failure(e: RecoveryReviewError) -> FailureView {
    match e {
        RecoveryReviewError::Database(error) => database_failure(error@),
        RecoveryReviewError::InvalidRequest { message } => failure("invalid_request"@, message@, seq![]),
        RecoveryReviewError::OperationNotFound { operation_id } => failure("recycle_operation_not_found"@, "Recycle operation "@ + operation_id@ + " was not found"@, seq![("recycleOperationId"@, DetailView::Text(operation_id@))]),
        RecoveryReviewError::InvalidOperationState { operation_id, status } => failure("recovery_review_invalid_state"@, "Recovery review is available only for a recovery-required operation"@, seq![("recycleOperationId"@, DetailView::Text(operation_id@)), ("status"@, DetailView::Text(status@))]),
        RecoveryReviewError::ItemNotFound { operation_id, item_id } => failure("recycle_operation_item_not_found"@, "The recovery-review item does not belong to this recycle operation"@, seq![("recycleOperationId"@, DetailView::Text(operation_id@)), ("itemId"@, DetailView::Integer(item_id as int))]),
        RecoveryReviewError::NonUnknownItem { operation_id, item_id, result_status } => failure("recovery_review_item_not_unknown"@, "Only an immutable unknown operation item can receive a recovery observation"@, seq![("recycleOperationId"@, DetailView::Text(operation_id@)), ("itemId"@, DetailView::Integer(item_id as int)), ("resultStatus"@, DetailView::Text(result_status@))]),
        RecoveryReviewError::ObservationNotFound { observation_id } => failure("recovery_review_observation_not_found"@, "Recovery observation "@ + decimal_int(observation_id as int) + " was not found"@, seq![("observationId"@, DetailView::Integer(observation_id as int))]),
        RecoveryReviewError::SupersessionConflict { observation_id, item_id } => failure("recovery_review_supersession_conflict"@, "The prior observation is not the current observation for this item"@, seq![("observationId"@, DetailView::Integer(observation_id as int)), ("itemId"@, DetailView::Integer(item_id as int))]),
        RecoveryReviewError::CurrentObservationExists { item_id, observation_id } => failure("recovery_review_current_observation_exists"@, "The item already has a current observation; supersede it explicitly"@, seq![("itemId"@, DetailView::Integer(item_id as int)), ("observationId"@, DetailView::Integer(observation_id as int))]),
        RecoveryReviewError::IdempotencyConflict { request_id } => failure("idempotency_conflict"@, "The request ID was already used with another recovery-review payload"@, seq![("requestId"@, DetailView::Text(request_id@))]),
    }
}

/// The failure reported for a `RecoveryReviewError`.
pub fn recovery_review_error(error: RecoveryReviewError) -> (r: ProtocolFailure)
    ensures
        r@ =~~= recovery_review_failure(error),
{
    match error {
        RecoveryReviewError::Database(error) => internal_database_error(error),
        RecoveryReviewError::InvalidRequest { message } => {
            let text = message.clone();
            let f = ProtocolFailure { code: string_from("invalid_request"), message: text, retryable: false, details: Vec::new() };
            let r = f;
            assert(r@.details =~= seq![]);
            r
        },
        RecoveryReviewError::OperationNotFound { operation_id } => {
            let mut out: Vec<char> = Vec::new();
            push_str(&mut out, "Recycle operation ");
            push_str(&mut out, operation_id.as_str());
            push_str(&mut out, " was not found");
            assert(out@ =~= "Recycle operation "@ + operation_id@ + " was not found"@);
            let text = string_of(&out);
            let f = ProtocolFailure { code: string_from("recycle_operation_not_found"), message: text, retryable: false, details: Vec::new() };
            let r = f.with_detail("recycleOperationId", DetailValue::Text(operation_id.clone()));
            assert(r@.details =~= seq![("recycleOperationId"@, DetailView::Text(operation_id@))]);
            r
        },
        RecoveryReviewError::InvalidOperationState { operation_id, status } => {
            let text = string_from("Recovery review is available only for a recovery-required operation");
            let f = ProtocolFailure { code: string_from("recovery_review_invalid_state"), message: text, retryable: false, details: Vec::new() };
            let r = f.with_detail("recycleOperationId", DetailValue::Text(operation_id.clone())).with_detail("status", DetailValue::Text(status.clone()));
            assert(r@.details =~= seq![("recycleOperationId"@, DetailView::Text(operation_id@)), ("status"@, DetailView::Text(status@))]);
            r
        },
        RecoveryReviewError::ItemNotFound { operation_id, item_id } => {
            let text = string_from("The recovery-review item does not belong to this recycle operation");
            let f = ProtocolFailure { code: string_from("recycle_operation_item_not_found"), message: text, retryable: false, details: Vec::new() };
            let r = f.with_detail("recycleOperationId", DetailValue::Text(operation_id.clone())).with_detail("itemId", DetailValue::Integer(item_id));
            assert(r@.details =~= seq![("recycleOperationId"@, DetailView::Text(operation_id@)), ("itemId"@, DetailView::Integer(item_id as int))]);
            r
        },
        RecoveryReviewError::NonUnknownItem { operation_id, item_id, result_status } => {
            let text = string_from("Only an immutable unknown operation item can receive a recovery observation");
            let f = ProtocolFailure { code: string_from("recovery_review_item_not_unknown"), message: text, retryable: false, details: Vec::new() };
            let r = f.with_detail("recycleOperationId", DetailValue::Text(operation_id.clone())).with_detail("itemId", DetailValue::Integer(item_id)).with_detail("resultStatus", DetailValue::Text(result_status.clone()));
            assert(r@.details =~= seq![("recycleOperationId"@, DetailView::Text(operation_id@)), ("itemId"@, DetailView::Integer(item_id as int)), ("resultStatus"@, DetailView::Text(result_status@))]);
            r
        },
        RecoveryReviewError::ObservationNotFound { observation_id } => {
            let mut out: Vec<char> = Vec::new();
            push_str(&mut out, "Recovery observation ");
            push_int(&mut out, observation_id);
            push_str(&mut out, " was not found");
            assert(out@ =~= "Recovery observation "@ + decimal_int(observation_id as int) + " was not found"@);
            let text = string_of(&out);
            let f = ProtocolFailure { code: string_from("recovery_review_observation_not_found"), message: text, retryable: false, details: Vec::new() };
            let r = f.with_detail("observationId", DetailValue::Integer(observation_id));
            assert(r@.details =~= seq![("observationId"@, DetailView::Integer(observation_id as int))]);
            r
        },
        RecoveryReviewError::SupersessionConflict { observation_id, item_id } => {
            let text = string_from("The prior observation is not the current observation for this item");
            let f = ProtocolFailure { code: string_from("recovery_review_supersession_conflict"), message: text, retryable: false, details: Vec::new() };
            let r = f.with_detail("observationId", DetailValue::Integer(observation_id)).with_detail("itemId", DetailValue::Integer(item_id));
            assert(r@.details =~= seq![("observationId"@, DetailView::Integer(observation_id as int)), ("itemId"@, DetailView::Integer(item_id as int))]);
            r
        },
        RecoveryReviewError::CurrentObservationExists { item_id, observation_id } => {
            let text = string_from("The item already has a current observation; supersede it explicitly");
            let f = ProtocolFailure { code: string_from("recovery_review_current_observation_exists"), message: text, retryable: false, details: Vec::new() };
            let r = f.with_detail("itemId", DetailValue::Integer(item_id)).with_detail("observationId", DetailValue::Integer(observation_id));
            assert(r@.details =~= seq![("itemId"@, DetailView::Integer(item_id as int)), ("observationId"@, DetailView::Integer(observation_id as int))]);
            r
        },
        RecoveryReviewError::IdempotencyConflict { request_id } => {
            let text = string_from("The request ID was already used with another recovery-review payload");
            let f = ProtocolFailure { code: string_from("idempotency_conflict"), message: text, retryable: false, details: Vec::new() };
            let r = f.with_detail("requestId", DetailValue::Text(request_id.clone()));
            assert(r@.details =~= seq![("requestId"@, DetailView::Text(request_id@))]);
            r
        },
    }
}

/// Why a store operation on live validation failed.
#[derive(Debug, Clone)]
pub enum ReviewLiveValidationError {
    /// The text of the underlying error.
    Database(String),
    InvalidRequest { message: String },
    RunNotFound { run_id: i64 },
    RunNotCompleted { run_id: i64, status: String },
    GroupNotFound { run_id: i64, group_id: i64 },
    MemberNotFound { run_id: i64, group_id: i64, file_id: i64 },
    StaleRevision { expected: i64, actual: i64 },
    IdempotencyConflict { operation_id: String },
    InvalidRunParameters { run_id: i64 },
}

/// The failure each `ReviewLiveValidationError` is reported as.
pub open spec fn review_live_validation_failure(e: ReviewLiveValidationError) -> FailureView {
    match e {
        ReviewLiveValidationError::Database(error) => database_failure(error@),
        ReviewLiveValidationError::InvalidRequest { message } => failure("invalid_request"@, message@, seq![]),
        ReviewLiveValidationError::RunNotFound { run_id } => failure("run_not_found"@, "Run "@ + decimal_int(run_id as int) + " was not found"@, seq![("runId"@, DetailView::Integer(run_id as int))]),
        ReviewLiveValidationError::RunNotCompleted { run_id, status } => failure("invalid_state"@, "Validation is available only for completed runs"@, seq![("runId"@, DetailView::Integer(run_id as int)), ("status"@, DetailView::Text(status@))]),
        ReviewLiveValidationError::GroupNotFound { run_id, group_id } => failure("duplicate_group_not_found"@, "The selected duplicate set was not found"@, seq![("runId"@, DetailView::Integer(run_id as int)), ("groupId"@, DetailView::Integer(group_id as int))]),
        ReviewLiveValidationError::MemberNotFound { run_id, group_id, file_id } => failure("review_member_not_found"@, "A requested visible-page file is not in the selected duplicate set"@, seq![("runId"@, DetailView::Integer(run_id as int)), ("groupId"@, DetailView::Integer(group_id as int)), ("fileId"@, DetailView::Integer(file_id as int))]),
        ReviewLiveValidationError::StaleRevision { expected, actual } => failure("review_generation_conflict"@, "Review choices changed before validation committed"@, seq![("expectedRevision"@, DetailView::Integer(expected as int)), ("currentRevision"@, DetailView::Integer(actual as int))]),
        ReviewLiveValidationError::IdempotencyConflict { operation_id } => failure("idempotency_conflict"@, "The operationId was already used for another validation request"@, seq![("operationId"@, DetailView::Text(operation_id@))]),
        ReviewLiveValidationError::InvalidRunParameters { run_id } => failure("invalid_run_snapshot"@, "The immutable run parameter snapshot could not be decoded"@, seq![("runId"@, DetailView::Integer(run_id as int))]),
    }
}

/// The failure reported for a `ReviewLiveValidationError`.
pub fn review_live_validation_error(error: ReviewLiveValidationError) -> (r: ProtocolFailure)
    ensures
        r@ =~~= review_live_validation_failure(error),
{
    match error {
        ReviewLiveValidationError::Database(error) => internal_database_error(error),
        ReviewLiveValidationError::InvalidRequest { message } => {
            let text = message.clone();
            let f = ProtocolFailure { code: string_from("invalid_request"), message: text, retryable: false, details: Vec::new() };
            let r = f;
            assert(r@.details =~= seq![]);
            r
        },
        ReviewLiveValidationError::RunNotFound { run_id } => {
            let mut out: Vec<char> = Vec::new();
            push_str(&mut out, "Run ");
            push_int(&mut out, run_id);
            push_str(&mut out, " was not found");
            assert(out@ =~= "Run "@ + decimal_int(run_id as int) + " was not found"@);
            let text = string_of(&out);
            let f = ProtocolFailure { code: string_from("run_not_found"), message: text, retryable: false, details: Vec::new() };
            let r = f.with_detail("runId", DetailValue::Integer(run_id));
            assert(r@.details =~= seq![("runId"@, DetailView::Integer(run_id as int))]);
            r
        },
        ReviewLiveValidationError::RunNotCompleted { run_id, status } => {
            let text = string_from("Validation is available only for completed runs");
            let f = ProtocolFailure { code: string_from("invalid_state"), message: text, retryable: false, details: Vec::new() };
            let r = f.with_detail("runId", DetailValue::Integer(run_id)).with_detail("status", DetailValue::Text(status.clone()));
            assert(r@.details =~= seq![("runId"@, DetailView::Integer(run_id as int)), ("status"@, DetailView::Text(status@))]);
            r
        },
        ReviewLiveValidationError::GroupNotFound { run_id, group_id } => {
            let text = string_from("The selected duplicate set was not found");
            let f = ProtocolFailure { code: string_from("duplicate_group_not_found"), message: text, retryable: false, details: Vec::new() };
            let r = f.with_detail("runId", DetailValue::Integer(run_id)).with_detail("groupId", DetailValue::Integer(group_id));
            assert(r@.details =~= seq![("runId"@, DetailView::Integer(run_id as int)), ("groupId"@, DetailView::Integer(group_id as int))]);
            r
        },
        ReviewLiveValidationError::MemberNotFound { run_id, group_id, file_id } => {
            let text = string_from("A requested visible-page file is not in the selected duplicate set");
            let f = ProtocolFailure { code: string_from("review_member_not_found"), message: text, retryable: false, details: Vec::new() };
            let r = f.with_detail("runId", DetailValue::Integer(run_id)).with_detail("groupId", DetailValue::Integer(group_id)).with_detail("fileId", DetailValue::Integer(file_id));
            assert(r@.details =~= seq![("runId"@, DetailView::Integer(run_id as int)), ("groupId"@, DetailView::Integer(group_id as int)), ("fileId"@, DetailView::Integer(file_id as int))]);
            r
        },
        ReviewLiveValidationError::StaleRevision { expected, actual } => {
            let text = string_from("Review choices changed before validation committed");
            let f = ProtocolFailure { code: string_from("review_generation_conflict"), message: text, retryable: false, details: Vec::new() };
            let r = f.with_detail("expectedRevision", DetailValue::Integer(expected)).with_detail("currentRevision", DetailValue::Integer(actual));
            assert(r@.details =~= seq![("expectedRevision"@, DetailView::Integer(expected as int)), ("currentRevision"@, DetailView::Integer(actual as int))]);
            r
        },
        ReviewLiveValidationError::IdempotencyConflict { operation_id } => {
            let text = string_from("The operationId was already used for another validation request");
            let f = ProtocolFailure { code: string_from("idempotency_conflict"), message: text, retryable: false, details: Vec::new() };
            let r = f.with_detail("operationId", DetailValue::Text(operation_id.clone()));
            assert(r@.details =~= seq![("operationId"@, DetailView::Text(operation_id@))]);
            r
        },
        ReviewLiveValidationError::InvalidRunParameters { run_id } => {
            let text = string_from("The immutable run parameter snapshot could not be decoded");
            let f = ProtocolFailure { code: string_from("invalid_run_snapshot"), message: text, retryable: false, details: Vec::new() };
            let r = f.with_detail("runId", DetailValue::Integer(run_id));
            assert(r@.details =~= seq![("runId"@, DetailView::Integer(run_id as int))]);
            r
        },
    }
}

/// Why a store operation on live hints failed.
#[derive(Debug, Clone)]
pub enum ReviewLiveHintError {
    /// The text of the underlying error.
    Database(String),
    InvalidRequest { message: String },
    RunNotFound { run_id: i64 },
    RunNotCompleted { run_id: i64, status: String },
    RootNotFound { run_id: i64, root_path: String },
    InvalidRunParameters { run_id: i64 },
}

/// The failure each `ReviewLiveHintError` is reported as.
pub open spec fn review_live_hint_failure(e: ReviewLiveHintError) -> FailureView {
    match e {
        ReviewLiveHintError::Database(error) => database_failure(error@),
        ReviewLiveHintError::InvalidRequest { message } => failure("invalid_request"@, message@, seq![]),
        ReviewLiveHintError::RunNotFound { run_id } => failure("run_not_found"@, "Run "@ + decimal_int(run_id as int) + " was not found"@, seq![("runId"@, DetailView::Integer(run_id as int))]),
        ReviewLiveHintError::RunNotCompleted { run_id, status } => failure("invalid_state"@, "Live hints are available only for completed runs"@, seq![("runId"@, DetailView::Integer(run_id as int)), ("status"@, DetailView::Text(status@))]),
        ReviewLiveHintError::RootNotFound { run_id, root_path } => failure("review_root_not_found"@, "The hinted path is not under an immutable selected root for this run"@, seq![("runId"@, DetailView::Integer(run_id as int)), ("rootPath"@, DetailView::Text(root_path@))]),
        ReviewLiveHintError::InvalidRunParameters { run_id } => failure("invalid_run_snapshot"@, "The immutable run parameter snapshot could not be decoded"@, seq![("runId"@, DetailView::Integer(run_id as int))]),
    }
}

/// The failure reported for a `ReviewLiveHintError`.
pub fn review_live_hint_error(error: ReviewLiveHintError) -> (r: ProtocolFailure)
    ensures
        r@ =~~= review_live_hint_failure(error),
{
    match error {
        ReviewLiveHintError::Database(error) => internal_database_error(error),
        ReviewLiveHintError::InvalidRequest { message } => {
            let text = message.clone();
            let f = ProtocolFailure { code: string_from("invalid_request"), message: text, retryable: false, details: Vec::new() };
            let r = f;
            assert(r@.details =~= seq![]);
            r
        },
        ReviewLiveHintError::RunNotFound { run_id } => {
            let mut out: Vec<char> = Vec::new();
            push_str(&mut out, "Run ");
            push_int(&mut out, run_id);
            push_str(&mut out, " was not found");
            assert(out@ =~= "Run "@ + decimal_int(run_id as int) + " was not found"@);
            let text = string_of(&out);
            let f = ProtocolFailure { code: string_from("run_not_found"), message: text, retryable: false, details: Vec::new() };
            let r = f.with_detail("runId", DetailValue::Integer(run_id));
            assert(r@.details =~= seq![("runId"@, DetailView::Integer(run_id as int))]);
            r
        },
        ReviewLiveHintError::RunNotCompleted { run_id, status } => {
            let text = string_from("Live hints are available only for completed runs");
            let f = ProtocolFailure { code: string_from("invalid_state"), message: text, retryable: false, details: Vec::new() };
            let r = f.with_detail("runId", DetailValue::Integer(run_id)).with_detail("status", DetailValue::Text(status.clone()));
            assert(r@.details =~= seq![("runId"@, DetailView::Integer(run_id as int)), ("status"@, DetailView::Text(status@))]);
            r
        },
        ReviewLiveHintError::RootNotFound { run_id, root_path } => {
            let text = string_from("The hinted path is not under an immutable selected root for this run");
            let f = ProtocolFailure { code: string_from("review_root_not_found"), message: text, retryable: false, details: Vec::new() };
            let r = f.with_detail("runId", DetailValue::Integer(run_id)).with_detail("rootPath", DetailValue::Text(root_path.clone()));
            assert(r@.details =~= seq![("runId"@, DetailView::Integer(run_id as int)), ("rootPath"@, DetailView::Text(root_path@))]);
            r
        },
        ReviewLiveHintError::InvalidRunParameters { run_id } => {
            let text = string_from("The immutable run parameter snapshot could not be decoded");
            let f = ProtocolFailure { code: string_from("invalid_run_snapshot"), message: text, retryable: false, details: Vec::new() };
            let r = f.with_detail("runId", DetailValue::Integer(run_id));
            assert(r@.details =~= seq![("runId"@, DetailView::Integer(run_id as int))]);
            r
        },
    }
}

/// Why a store operation on dirty-root reconciliation failed.
#[derive(Debug, Clone)]
pub enum ReviewLiveRootError {
    /// The text of the underlying error.
    Database(String),
    InvalidRequest { message: String },
    RunNotFound { run_id: i64 },
    RunNotCompleted { run_id: i64, status: String },
    RootNotFound { run_id: i64, root_path: String },
    RootNotDirty { run_id: i64, root_path: String },
    StaleDirtyRevision { expected: i64, actual: i64 },
    StaleReviewRevision { expected: i64, actual: i64 },
    StaleReconciliationCursor,
    IdempotencyConflict { operation_id: String },
    InvalidRunParameters { run_id: i64 },
}

/// The failure each `ReviewLiveRootError` is reported as.
pub open spec fn review_live_root_failure(e: ReviewLiveRootError) -> FailureView {
    match e {
        ReviewLiveRootError::Database(error) => database_failure(error@),
        ReviewLiveRootError::InvalidRequest { message } => failure("invalid_request"@, message@, seq![]),
        ReviewLiveRootError::RunNotFound { run_id } => failure("run_not_found"@, "Run "@ + decimal_int(run_id as int) + " was not found"@, seq![("runId"@, DetailView::Integer(run_id as int))]),
        ReviewLiveRootError::RunNotCompleted { run_id, status } => failure("invalid_state"@, "Dirty-root reconciliation is available only for completed runs"@, seq![("runId"@, DetailView::Integer(run_id as int)), ("status"@, DetailView::Text(status@))]),
        ReviewLiveRootError::RootNotFound { run_id, root_path } => failure("review_root_not_found"@, "The requested path is not an immutable selected root for this run"@, seq![("runId"@, DetailView::Integer(run_id as int)), ("rootPath"@, DetailView::Text(root_path@))]),
        ReviewLiveRootError::RootNotDirty { run_id, root_path } => failure("review_root_not_dirty"@, "The requested root no longer requires reconciliation"@, seq![("runId"@, DetailView::Integer(run_id as int)), ("rootPath"@, DetailView::Text(root_path@))]),
        ReviewLiveRootError::StaleDirtyRevision { expected, actual } => failure("dirty_generation_conflict"@, "Another overflow changed the dirty root before reconciliation committed"@, seq![("expectedDirtyRevision"@, DetailView::Integer(expected as int)), ("currentDirtyRevision"@, DetailView::Integer(actual as int))]),
        ReviewLiveRootError::StaleReviewRevision { expected, actual } => failure("review_generation_conflict"@, "Review choices changed before root reconciliation committed"@, seq![("expectedRevision"@, DetailView::Integer(expected as int)), ("currentRevision"@, DetailView::Integer(actual as int))]),
        ReviewLiveRootError::StaleReconciliationCursor => failure("dirty_reconciliation_conflict"@, "Another bounded request advanced this dirty root; reload its current state"@, seq![]),
        ReviewLiveRootError::IdempotencyConflict { operation_id } => failure("idempotency_conflict"@, "The operationId was already used for another dirty-root request"@, seq![("operationId"@, DetailView::Text(operation_id@))]),
        ReviewLiveRootError::InvalidRunParameters { run_id } => failure("invalid_run_snapshot"@, "The immutable run parameter snapshot could not be decoded"@, seq![("runId"@, DetailView::Integer(run_id as int))]),
    }
}

/// The failure reported for a `ReviewLiveRootError`.
pub fn review_live_root_error(error: ReviewLiveRootError) -> (r: ProtocolFailure)
    ensures
        r@ =~~= review_live_root_failure(error),
{
    match error {
        ReviewLiveRootError::Database(error) => internal_database_error(error),
        ReviewLiveRootError::InvalidRequest { message } => {
            let text = message.clone();
            let f = ProtocolFailure { code: string_from("invalid_request"), message: text, retryable: false, details: Vec::new() };
            let r = f;
            assert(r@.details =~= seq![]);
            r
        },
        ReviewLiveRootError::RunNotFound { run_id } => {
            let mut out: Vec<char> = Vec::new();
            push_str(&mut out, "Run ");
            push_int(&mut out, run_id);
            push_str(&mut out, " was not found");
            assert(out@ =~= "Run "@ + decimal_int(run_id as int) + " was not found"@);
            let text = string_of(&out);
            let f = ProtocolFailure { code: string_from("run_not_found"), message: text, retryable: false, details: Vec::new() };
            let r = f.with_detail("runId", DetailValue::Integer(run_id));
            assert(r@.details =~= seq![("runId"@, DetailView::Integer(run_id as int))]);
            r
        },
        ReviewLiveRootError::RunNotCompleted { run_id, status } => {
            let text = string_from("Dirty-root reconciliation is available only for completed runs");
            let f = ProtocolFailure { code: string_from("invalid_state"), message: text, retryable: false, details: Vec::new() };
            let r = f.with_detail("runId", DetailValue::Integer(run_id)).with_detail("status", DetailValue::Text(status.clone()));
            assert(r@.details =~= seq![("runId"@, DetailView::Integer(run_id as int)), ("status"@, DetailView::Text(status@))]);
            r
        },
        ReviewLiveRootError::RootNotFound { run_id, root_path } => {
            let text = string_from("The requested path is not an immutable selected root for this run");
            let f = ProtocolFailure { code: string_from("review_root_not_found"), message: text, retryable: false, details: Vec::new() };
            let r = f.with_detail("runId", DetailValue::Integer(run_id)).with_detail("rootPath", DetailValue::Text(root_path.clone()));
            assert(r@.details =~= seq![("runId"@, DetailView::Integer(run_id as int)), ("rootPath"@, DetailView::Text(root_path@))]);
            r
        },
        ReviewLiveRootError::RootNotDirty { run_id, root_path } => {
            let text = string_from("The requested root no longer requires reconciliation");
            let f = ProtocolFailure { code: string_from("review_root_not_dirty"), message: text, retryable: false, details: Vec::new() };
            let r = f.with_detail("runId", DetailValue::Integer(run_id)).with_detail("rootPath", DetailValue::Text(root_path.clone()));
            assert(r@.details =~= seq![("runId"@, DetailView::Integer(run_id as int)), ("rootPath"@, DetailView::Text(root_path@))]);
            r
        },
        ReviewLiveRootError::StaleDirtyRevision { expected, actual } => {
            let text = string_from("Another overflow changed the dirty root before reconciliation committed");
            let f = ProtocolFailure { code: string_from("dirty_generation_conflict"), message: text, retryable: false, details: Vec::new() };
            let r = f.with_detail("expectedDirtyRevision", DetailValue::Integer(expected)).with_detail("currentDirtyRevision", DetailValue::Integer(actual));
            assert(r@.details =~= seq![("expectedDirtyRevision"@, DetailView::Integer(expected as int)), ("currentDirtyRevision"@, DetailView::Integer(actual as int))]);
            r
        },
        ReviewLiveRootError::StaleReviewRevision { expected, actual } => {
            let text = string_from("Review choices changed before root reconciliation committed");
            let f = ProtocolFailure { code: string_from("review_generation_conflict"), message: text, retryable: false, details: Vec::new() };
            let r = f.with_detail("expectedRevision", DetailValue::Integer(expected)).with_detail("currentRevision", DetailValue::Integer(actual));
            assert(r@.details =~= seq![("expectedRevision"@, DetailView::Integer(expected as int)), ("currentRevision"@, DetailView::Integer(actual as int))]);
            r
        },
        ReviewLiveRootError::StaleReconciliationCursor => {
            let text = string_from("Another bounded request advanced this dirty root; reload its current state");
            let f = ProtocolFailure { code: string_from("dirty_reconciliation_conflict"), message: text, retryable: false, details: Vec::new() };
            let r = f;
            assert(r@.details =~= seq![]);
            r
        },
        ReviewLiveRootError::IdempotencyConflict { operation_id } => {
            let text = string_from("The operationId was already used for another dirty-root request");
            let f = ProtocolFailure { code: string_from("idempotency_conflict"), message: text, retryable: false, details: Vec::new() };
            let r = f.with_detail("operationId", DetailValue::Text(operation_id.clone()));
            assert(r@.details =~= seq![("operationId"@, DetailView::Text(operation_id@))]);
            r
        },
        ReviewLiveRootError::InvalidRunParameters { run_id } => {
            let text = string_from("The immutable run parameter snapshot could not be decoded");
            let f = ProtocolFailure { code: string_from("invalid_run_snapshot"), message: text, retryable: false, details: Vec::new() };
            let r = f.with_detail("runId", DetailValue::Integer(run_id));
            assert(r@.details =~= seq![("runId"@, DetailView::Integer(run_id as int))]);
            r
        },
    }
}

} // verus!
