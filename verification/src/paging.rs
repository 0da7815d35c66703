//! Keyset paging of result lists: the signature of the query a page
//! belongs to, and the cursor that resumes after a page's last row.
use vstd::prelude::*;
use crate::choices::{
    direction_name, direction_name_spec, drive_facet_sort_name, drive_facet_sort_name_spec, extension_match_name,
    extension_match_name_spec, folder_group_sort_name, folder_group_sort_name_spec, folder_member_sort_name,
    folder_member_sort_name_spec, group_sort_name, group_sort_name_spec, member_sort_name, member_sort_name_spec,
    path_match_name, path_match_name_spec, selected_root_facet_sort_name, selected_root_facet_sort_name_spec,
    warning_sort_name, warning_sort_name_spec, DuplicateFileDriveFacetSortField, DuplicateFileExtensionMatchMode,
    DuplicateFileGroupSortField, DuplicateFileMemberSortField, DuplicateFilePathMatchMode,
    DuplicateFileSelectedRootFacetSortField, DuplicateFolderGroupSortField, DuplicateFolderMemberSortField,
    RunWarningSortField, SortDirection,
};
use crate::cursor::{
    cursor_text, encode_cursor, hex_encode_spec, json_escaped, json_string, payload_json, push_json_string, push_str, scalar_view,
    CursorPayload, CursorScalar, PageCursor,
};
use vstd::utf8::encode_utf8;
use crate::failure::ProtocolFailure;
use crate::scope::{json_bool, json_optional_string, text_or_empty};
use crate::text::{decimal_int, i64_to_decimal, lemma_decimal_int_parses_back, parse_i64_spec, string_of};

verus! {

/// The view of an optional text argument.
pub open spec fn opt_view(o: Option<&str>) -> Option<Seq<char>> {
    match o {
        Some(s) => Some(s@),
        None => None,
    }
}

/// The filter of a duplicate-file query, as its signature records it.
#[derive(Debug, Clone, Copy)]
pub struct FilterSignature<'a> {
    pub search: Option<&'a str>,
    pub path_match: DuplicateFilePathMatchMode,
    pub extension: Option<&'a str>,
    pub extension_match: DuplicateFileExtensionMatchMode,
    pub minimum_size: i64,
    pub minimum_copy_count: i64,
    pub across_drives: bool,
}

/// The keys the duplicate-file signatures share, up to `search`, in sorted
/// order.
pub open spec fn filter_json_head(run_id: i64, f: FilterSignature) -> Seq<char> {
    "{\"acrossDrives\":"@ + json_bool(f.across_drives) + ",\"extension\":"@ + json_optional_string(opt_view(f.extension))
        + ",\"extensionMatch\":"@ + json_string(extension_match_name_spec(f.extension_match))
        + ",\"minimumCopyCount\":"@ + decimal_int(f.minimum_copy_count as int) + ",\"minimumSize\":"@ + decimal_int(
        f.minimum_size as int,
    ) + ",\"pathMatch\":"@ + json_string(path_match_name_spec(f.path_match)) + ",\"runId\":"@ + decimal_int(
        run_id as int,
    ) + ",\"search\":"@ + json_string(text_or_empty(opt_view(f.search)))
}

/// The signature of a duplicate-file group query: a JSON object with sorted keys.
pub open spec fn group_signature_spec(
    run_id: i64,
    sort_field: DuplicateFileGroupSortField,
    sort_direction: SortDirection,
    f: FilterSignature,
    selected_root: Option<&str>,
    selected_drive: Option<&str>,
) -> Seq<char> {
    filter_json_head(run_id, f) + (",\"selectedDrive\":"@ + json_string(text_or_empty(opt_view(selected_drive)))
        + ",\"selectedRoot\":"@ + json_string(text_or_empty(opt_view(selected_root))) + ",\"sortDirection\":"@
        + json_string(direction_name_spec(sort_direction)) + ",\"sortField\":"@ + json_string(
        group_sort_name_spec(sort_field),
    ) + "}"@)
}

/// The signature of a selected-root facet query.
pub open spec fn selected_root_facet_signature_spec(
    run_id: i64,
    sort_field: DuplicateFileSelectedRootFacetSortField,
    sort_direction: SortDirection,
    f: FilterSignature,
    selected_drive: Option<&str>,
) -> Seq<char> {
    filter_json_head(run_id, f) + (",\"selectedDrive\":"@ + json_string(text_or_empty(opt_view(selected_drive)))
        + ",\"sortDirection\":"@ + json_string(direction_name_spec(sort_direction)) + ",\"sortField\":"@
        + json_string(selected_root_facet_sort_name_spec(sort_field)) + "}"@)
}

/// The signature of a drive facet query.
pub open spec fn drive_facet_signature_spec(
    run_id: i64,
    sort_field: DuplicateFileDriveFacetSortField,
    sort_direction: SortDirection,
    f: FilterSignature,
    selected_root: Option<&str>,
) -> Seq<char> {
    filter_json_head(run_id, f) + (",\"selectedRoot\":"@ + json_string(text_or_empty(opt_view(selected_root)))
        + ",\"sortDirection\":"@ + json_string(direction_name_spec(sort_direction)) + ",\"sortField\":"@
        + json_string(drive_facet_sort_name_spec(sort_field)) + "}"@)
}

/// The part of every duplicate-file signature before the extension-match
/// name.
pub open spec fn before_extension_match(f: FilterSignature) -> Seq<char> {
    "{\"acrossDrives\":"@ + json_bool(f.across_drives) + ",\"extension\":"@ + json_optional_string(opt_view(f.extension))
        + ",\"extensionMatch\":"@
}

proof fn lemma_extension_match_names_split(run_id: i64, f: FilterSignature)
    ensures
        ({
            let p = before_extension_match(f);
            let x = json_string(extension_match_name_spec(f.extension_match));
            &&& x.len() == 5
            &&& x[2] == (if f.extension_match == DuplicateFileExtensionMatchMode::AnyMember {
                'n'
            } else {
                'l'
            })
            &&& filter_json_head(run_id, f).len() >= p.len() + 5
            &&& forall|k: int| 0 <= k < p.len() + 5 ==> #[trigger] filter_json_head(run_id, f)[k] == (p + x)[k]
        }),
{
    reveal_strlit("any");
    reveal_strlit("all");
    reveal_with_fuel(json_escaped, 4);
    let any = seq!['a', 'n', 'y'];
    let all = seq!['a', 'l', 'l'];
    assert("any"@ =~= any);
    assert("all"@ =~= all);
    assert(any.drop_last().drop_last().drop_last() =~= Seq::<char>::empty());
    assert(all.drop_last().drop_last().drop_last() =~= Seq::<char>::empty());
    assert(json_escaped(any) =~= any);
    assert(json_escaped(all) =~= all);
}

/// Two filters that differ only in the extension-match mode give
/// duplicate-file signature heads that differ at one position.
proof fn lemma_heads_differ(run_id: i64, f: FilterSignature, g: FilterSignature) -> (k: int)
    requires
        g == (FilterSignature { extension_match: g.extension_match, ..f }),
        g.extension_match != f.extension_match,
    ensures
        0 <= k < filter_json_head(run_id, f).len(),
        k < filter_json_head(run_id, g).len(),
        filter_json_head(run_id, f)[k] != filter_json_head(run_id, g)[k],
{
    lemma_extension_match_names_split(run_id, f);
    lemma_extension_match_names_split(run_id, g);
    let p = before_extension_match(f);
    assert(before_extension_match(g) == p);
    let k = p.len() as int + 2;
    let xf = json_string(extension_match_name_spec(f.extension_match));
    let xg = json_string(extension_match_name_spec(g.extension_match));
    assert((p + xf)[k] == xf[2]);
    assert((p + xg)[k] == xg[2]);
    assert(filter_json_head(run_id, f)[k] == (p + xf)[k]);
    assert(filter_json_head(run_id, g)[k] == (p + xg)[k]);
    k
}

/// The extension-match mode is bound to every duplicate-file query
/// signature: two group, selected-root facet or drive facet queries that
/// differ only in it have different signatures, so a cursor made for one
/// (whose query must equal the signature it is checked against) is refused
/// by the other.
pub proof fn lemma_extension_match_is_bound_to_signatures(
    run_id: i64,
    f: FilterSignature,
    g: FilterSignature,
    group_sort: DuplicateFileGroupSortField,
    root_sort: DuplicateFileSelectedRootFacetSortField,
    drive_sort: DuplicateFileDriveFacetSortField,
    direction: SortDirection,
    selected_root: Option<&str>,
    selected_drive: Option<&str>,
)
    requires
        g == (FilterSignature { extension_match: g.extension_match, ..f }),
        g.extension_match != f.extension_match,
    ensures
        group_signature_spec(run_id, group_sort, direction, f, selected_root, selected_drive) != group_signature_spec(
            run_id,
            group_sort,
            direction,
            g,
            selected_root,
            selected_drive,
        ),
        selected_root_facet_signature_spec(run_id, root_sort, direction, f, selected_drive)
            != selected_root_facet_signature_spec(run_id, root_sort, direction, g, selected_drive),
        drive_facet_signature_spec(run_id, drive_sort, direction, f, selected_root) != drive_facet_signature_spec(
            run_id,
            drive_sort,
            direction,
            g,
            selected_root,
        ),
{
    let k = lemma_heads_differ(run_id, f, g);
    let hf = filter_json_head(run_id, f);
    let hg = filter_json_head(run_id, g);
    assert forall|rest: Seq<char>| (#[trigger] (hf + rest))[k] == hf[k] by {
        lemma_prefix_index(hf, rest, k);
    }
    assert forall|rest: Seq<char>| (#[trigger] (hg + rest))[k] == hg[k] by {
        lemma_prefix_index(hg, rest, k);
    }
}

/// A text made of `head` and more agrees with `head` below its length.
proof fn lemma_prefix_index(head: Seq<char>, rest: Seq<char>, k: int)
    requires
        0 <= k < head.len(),
    ensures
        (head + rest)[k] == head[k],
{
}

fn push_int(out: &mut Vec<char>, n: i64)
    ensures
        final(out)@ == old(out)@ + decimal_int(n as int),
{
    let d = i64_to_decimal(n);
    push_str(out, d.as_str());
}

fn push_text_or_empty(out: &mut Vec<char>, o: Option<&str>)
    ensures
        final(out)@ == old(out)@ + json_string(text_or_empty(opt_view(o))),
{
    match o {
        Some(s) => push_json_string(out, s),
        None => push_json_string(out, ""),
    }
    proof {
        reveal_strlit("");
        assert(""@ =~= Seq::<char>::empty());
    }
}

fn push_bool(out: &mut Vec<char>, b: bool)
    ensures
        final(out)@ == old(out)@ + json_bool(b),
{
    if b {
        push_str(out, "true");
    } else {
        push_str(out, "false");
    }
}

fn push_optional_json(out: &mut Vec<char>, o: Option<&str>)
    ensures
        final(out)@ == old(out)@ + json_optional_string(opt_view(o)),
{
    match o {
        Some(e) => push_json_string(out, e),
        None => push_str(out, "null"),
    }
}

fn push_filter_head(out: &mut Vec<char>, run_id: i64, f: &FilterSignature)
    ensures
        final(out)@ == old(out)@ + filter_json_head(run_id, *f),
{
    let ghost start = out@;
    push_str(out, "{\"acrossDrives\":");
    push_bool(out, f.across_drives);
    push_str(out, ",\"extension\":");
    push_optional_json(out, f.extension);
    push_str(out, ",\"extensionMatch\":");
    push_json_string(out, extension_match_name(f.extension_match));
    push_str(out, ",\"minimumCopyCount\":");
    push_int(out, f.minimum_copy_count);
    push_str(out, ",\"minimumSize\":");
    push_int(out, f.minimum_size);
    push_str(out, ",\"pathMatch\":");
    push_json_string(out, path_match_name(f.path_match));
    push_str(out, ",\"runId\":");
    push_int(out, run_id);
    push_str(out, ",\"search\":");
    push_text_or_empty(out, f.search);
    assert(out@ =~= start + filter_json_head(run_id, *f));
}

/// The signature that binds a duplicate-file group page to its query.
pub fn group_query_signature(
    run_id: i64,
    sort_field: DuplicateFileGroupSortField,
    sort_direction: SortDirection,
    filter: &FilterSignature,
    selected_root: Option<&str>,
    selected_drive: Option<&str>,
) -> (r: String)
    ensures
        r@ == group_signature_spec(run_id, sort_field, sort_direction, *filter, selected_root, selected_drive),
{
    let mut out: Vec<char> = Vec::new();
    push_filter_head(&mut out, run_id, filter);
    push_str(&mut out, ",\"selectedDrive\":");
    push_text_or_empty(&mut out, selected_drive);
    push_str(&mut out, ",\"selectedRoot\":");
    push_text_or_empty(&mut out, selected_root);
    push_str(&mut out, ",\"sortDirection\":");
    push_json_string(&mut out, direction_name(sort_direction));
    push_str(&mut out, ",\"sortField\":");
    push_json_string(&mut out, group_sort_name(sort_field));
    push_str(&mut out, "}");
    assert(out@ =~= group_signature_spec(run_id, sort_field, sort_direction, *filter, selected_root, selected_drive));
    string_of(&out)
}

/// The signature that binds a selected-root facet page to its query.
pub fn selected_root_facet_query_signature(
    run_id: i64,
    sort_field: DuplicateFileSelectedRootFacetSortField,
    sort_direction: SortDirection,
    filter: &FilterSignature,
    selected_drive: Option<&str>,
) -> (r: String)
    ensures
        r@ == selected_root_facet_signature_spec(run_id, sort_field, sort_direction, *filter, selected_drive),
{
    let mut out: Vec<char> = Vec::new();
    push_filter_head(&mut out, run_id, filter);
    push_str(&mut out, ",\"selectedDrive\":");
    push_text_or_empty(&mut out, selected_drive);
    push_str(&mut out, ",\"sortDirection\":");
    push_json_string(&mut out, direction_name(sort_direction));
    push_str(&mut out, ",\"sortField\":");
    push_json_string(&mut out, selected_root_facet_sort_name(sort_field));
    push_str(&mut out, "}");
    assert(out@ =~= selected_root_facet_signature_spec(run_id, sort_field, sort_direction, *filter, selected_drive));
    string_of(&out)
}

/// The signature that binds a drive facet page to its query.
pub fn drive_facet_query_signature(
    run_id: i64,
    sort_field: DuplicateFileDriveFacetSortField,
    sort_direction: SortDirection,
    filter: &FilterSignature,
    selected_root: Option<&str>,
) -> (r: String)
    ensures
        r@ == drive_facet_signature_spec(run_id, sort_field, sort_direction, *filter, selected_root),
{
    let mut out: Vec<char> = Vec::new();
    push_filter_head(&mut out, run_id, filter);
    push_str(&mut out, ",\"selectedRoot\":");
    push_text_or_empty(&mut out, selected_root);
    push_str(&mut out, ",\"sortDirection\":");
    push_json_string(&mut out, direction_name(sort_direction));
    push_str(&mut out, ",\"sortField\":");
    push_json_string(&mut out, drive_facet_sort_name(sort_field));
    push_str(&mut out, "}");
    assert(out@ =~= drive_facet_signature_spec(run_id, sort_field, sort_direction, *filter, selected_root));
    string_of(&out)
}

/// `run|group|sortField|direction|search`.
pub open spec fn member_signature_spec(
    run_id: i64,
    group_id: i64,
    sort_field: DuplicateFileMemberSortField,
    sort_direction: SortDirection,
    search: Option<&str>,
) -> Seq<char> {
    decimal_int(run_id as int) + "|"@ + decimal_int(group_id as int) + "|"@ + member_sort_name_spec(sort_field) + "|"@
        + direction_name_spec(sort_direction) + "|"@ + text_or_empty(opt_view(search))
}

fn push_opt(out: &mut Vec<char>, o: Option<&str>)
    ensures
        final(out)@ == old(out)@ + text_or_empty(opt_view(o)),
{
    match o {
        Some(s) => push_str(out, s),
        None => {
            assert(old(out)@ =~= old(out)@ + text_or_empty(opt_view(o)));
        },
    }
}

/// The signature that binds a duplicate-file member page to its query.
pub fn member_query_signature(
    run_id: i64,
    group_id: i64,
    sort_field: DuplicateFileMemberSortField,
    sort_direction: SortDirection,
    search: Option<&str>,
) -> (r: String)
    ensures
        r@ == member_signature_spec(run_id, group_id, sort_field, sort_direction, search),
{
    let mut out: Vec<char> = Vec::new();
    push_int(&mut out, run_id);
    push_str(&mut out, "|");
    push_int(&mut out, group_id);
    push_str(&mut out, "|");
    push_str(&mut out, member_sort_name(sort_field));
    push_str(&mut out, "|");
    push_str(&mut out, direction_name(sort_direction));
    push_str(&mut out, "|");
    push_opt(&mut out, search);
    assert(out@ =~= member_signature_spec(run_id, group_id, sort_field, sort_direction, search));
    string_of(&out)
}

/// `run|sortField|direction|search|minimumSize`.
pub open spec fn folder_group_signature_spec(
    run_id: i64,
    sort_field: DuplicateFolderGroupSortField,
    sort_direction: SortDirection,
    search: Option<&str>,
    minimum_size: i64,
) -> Seq<char> {
    decimal_int(run_id as int) + "|"@ + folder_group_sort_name_spec(sort_field) + "|"@ + direction_name_spec(
        sort_direction,
    ) + "|"@ + text_or_empty(opt_view(search)) + "|"@ + decimal_int(minimum_size as int)
}

/// The signature that binds a duplicate-folder group page to its query.
pub fn folder_group_query_signature(
    run_id: i64,
    sort_field: DuplicateFolderGroupSortField,
    sort_direction: SortDirection,
    search: Option<&str>,
    minimum_size: i64,
) -> (r: String)
    ensures
        r@ == folder_group_signature_spec(run_id, sort_field, sort_direction, search, minimum_size),
{
    let mut out: Vec<char> = Vec::new();
    push_int(&mut out, run_id);
    push_str(&mut out, "|");
    push_str(&mut out, folder_group_sort_name(sort_field));
    push_str(&mut out, "|");
    push_str(&mut out, direction_name(sort_direction));
    push_str(&mut out, "|");
    push_opt(&mut out, search);
    push_str(&mut out, "|");
    push_int(&mut out, minimum_size);
    assert(out@ =~= folder_group_signature_spec(run_id, sort_field, sort_direction, search, minimum_size));
    string_of(&out)
}

/// `run|group|sortField|direction|search|plan|revision`.
pub open spec fn folder_member_signature_spec(
    run_id: i64,
    group_id: i64,
    sort_field: DuplicateFolderMemberSortField,
    sort_direction: SortDirection,
    search: Option<&str>,
    review_plan_id: i64,
    review_revision: i64,
) -> Seq<char> {
    decimal_int(run_id as int) + "|"@ + decimal_int(group_id as int) + "|"@ + folder_member_sort_name_spec(sort_field)
        + "|"@ + direction_name_spec(sort_direction) + "|"@ + text_or_empty(opt_view(search)) + "|"@ + decimal_int(
        review_plan_id as int,
    ) + "|"@ + decimal_int(review_revision as int)
}

/// The signature that binds a duplicate-folder member page to its query and
/// to the review plan revision it shows.
pub fn folder_member_query_signature(
    run_id: i64,
    group_id: i64,
    sort_field: DuplicateFolderMemberSortField,
    sort_direction: SortDirection,
    search: Option<&str>,
    review_plan_id: i64,
    review_revision: i64,
) -> (r: String)
    ensures
        r@ == folder_member_signature_spec(
            run_id,
            group_id,
            sort_field,
            sort_direction,
            search,
            review_plan_id,
            review_revision,
        ),
{
    let mut out: Vec<char> = Vec::new();
    push_int(&mut out, run_id);
    push_str(&mut out, "|");
    push_int(&mut out, group_id);
    push_str(&mut out, "|");
    push_str(&mut out, folder_member_sort_name(sort_field));
    push_str(&mut out, "|");
    push_str(&mut out, direction_name(sort_direction));
    push_str(&mut out, "|");
    push_opt(&mut out, search);
    push_str(&mut out, "|");
    push_int(&mut out, review_plan_id);
    push_str(&mut out, "|");
    push_int(&mut out, review_revision);
    assert(out@ =~= folder_member_signature_spec(
        run_id,
        group_id,
        sort_field,
        sort_direction,
        search,
        review_plan_id,
        review_revision,
    ));
    string_of(&out)
}

/// `run|sortField|direction|revision|status`: a warning page is bound to
/// the warning revision and the run status it was read under.
pub open spec fn warning_signature_spec(
    run_id: i64,
    field: RunWarningSortField,
    direction: SortDirection,
    revision: i64,
    run_status: Seq<char>,
) -> Seq<char> {
    decimal_int(run_id as int) + "|"@ + warning_sort_name_spec(field) + "|"@ + direction_name_spec(direction) + "|"@
        + decimal_int(revision as int) + "|"@ + run_status
}

/// The signature that binds a warning page to its query.
pub fn warning_query_signature(
    run_id: i64,
    field: RunWarningSortField,
    direction: SortDirection,
    revision: i64,
    run_status: &str,
) -> (r: String)
    ensures
        r@ == warning_signature_spec(run_id, field, direction, revision, run_status@),
{
    let mut out: Vec<char> = Vec::new();
    push_int(&mut out, run_id);
    push_str(&mut out, "|");
    push_str(&mut out, warning_sort_name(field));
    push_str(&mut out, "|");
    push_str(&mut out, direction_name(direction));
    push_str(&mut out, "|");
    push_int(&mut out, revision);
    push_str(&mut out, "|");
    push_str(&mut out, run_status);
    assert(out@ =~= warning_signature_spec(run_id, field, direction, revision, run_status@));
    string_of(&out)
}

/// The cursor text that resumes a page of `kind` for `query` after (or
/// before) the row with the given id and sort value.
pub open spec fn row_cursor(kind: Seq<char>, query: Seq<char>, before: bool, is_text: bool, value: Seq<char>, id: i64) -> Seq<
    char,
> {
    hex_encode_spec(encode_utf8(payload_json(1, kind, query, before, is_text, value, id as int)))
}

fn row_payload(kind: &str, signature: &str, before: bool, value: CursorScalar, id: i64) -> (r: CursorPayload)
    ensures
        cursor_text(r) == row_cursor(kind@, signature@, before, scalar_view(value).is_text, scalar_view(value).value, id),
{
    CursorPayload { version: 1, kind: kind.to_owned(), query: signature.to_owned(), before, value, id }
}

fn integer_value(n: i64) -> (r: CursorScalar)
    ensures
        !scalar_view(r).is_text,
        scalar_view(r).value == decimal_int(n as int),
{
    CursorScalar::Integer(i64_to_decimal(n))
}

fn text_value(s: &String) -> (r: CursorScalar)
    ensures
        scalar_view(r).is_text,
        scalar_view(r).value == s@,
{
    CursorScalar::Text(s.clone())
}

/// What a duplicate-file group page cursor records of the group it stops at.
#[derive(Debug, Clone)]
pub struct GroupRowKey {
    pub id: i64,
    pub recoverable_bytes: i64,
    pub file_size: i64,
    pub file_count: i64,
    pub representative_name: String,
}

/// The sort value of a group under a sort field: text for the name, a
/// decimal integer otherwise.
pub open spec fn group_sort_value(g: GroupRowKey, field: DuplicateFileGroupSortField) -> (bool, Seq<char>) {
    match field {
        DuplicateFileGroupSortField::RecoverableBytes => (false, decimal_int(g.recoverable_bytes as int)),
        DuplicateFileGroupSortField::GroupSize => (false, decimal_int(g.file_size as int)),
        DuplicateFileGroupSortField::CopyCount => (false, decimal_int(g.file_count as int)),
        DuplicateFileGroupSortField::RepresentativeName => (true, g.representative_name@),
    }
}

/// A group page cursor records the value its sort orders by: an integer
/// sort records the decimal text that reads back as the sorted column
/// (recoverable bytes, the group's file size, its copy count), and the name
/// sort records the representative name.
pub proof fn lemma_group_cursor_records_sorted_column(g: GroupRowKey)
    ensures
        !group_sort_value(g, DuplicateFileGroupSortField::RecoverableBytes).0,
        parse_i64_spec(group_sort_value(g, DuplicateFileGroupSortField::RecoverableBytes).1) == Some(g.recoverable_bytes),
        !group_sort_value(g, DuplicateFileGroupSortField::GroupSize).0,
        parse_i64_spec(group_sort_value(g, DuplicateFileGroupSortField::GroupSize).1) == Some(g.file_size),
        !group_sort_value(g, DuplicateFileGroupSortField::CopyCount).0,
        parse_i64_spec(group_sort_value(g, DuplicateFileGroupSortField::CopyCount).1) == Some(g.file_count),
        group_sort_value(g, DuplicateFileGroupSortField::RepresentativeName) == (true, g.representative_name@),
{
    lemma_decimal_int_parses_back(g.recoverable_bytes as int);
    lemma_decimal_int_parses_back(g.file_size as int);
    lemma_decimal_int_parses_back(g.file_count as int);
}

/// The cursor that resumes a group page at `group`.
pub fn encode_group_cursor(group: &GroupRowKey, sort_field: DuplicateFileGroupSortField, before: bool, signature: &str) -> (r: Result<
    String,
    ProtocolFailure,
>)
    ensures
        r matches Ok(s) && s@ == row_cursor(
            "duplicate-file-groups"@,
            signature@,
            before,
            group_sort_value(*group, sort_field).0,
            group_sort_value(*group, sort_field).1,
            group.id,
        ),
{
    let value = match sort_field {
        DuplicateFileGroupSortField::RecoverableBytes => integer_value(group.recoverable_bytes),
        DuplicateFileGroupSortField::GroupSize => integer_value(group.file_size),
        DuplicateFileGroupSortField::CopyCount => integer_value(group.file_count),
        DuplicateFileGroupSortField::RepresentativeName => text_value(&group.representative_name),
    };
    Ok(encode_cursor(&row_payload("duplicate-file-groups", signature, before, value, group.id)))
}

/// What a warning page cursor records of the warning it stops at.
#[derive(Debug, Clone)]
pub struct WarningRowKey {
    pub id: i64,
    pub phase: String,
    pub occurrence_count: i64,
    pub message: String,
}

pub open spec fn warning_sort_value(w: WarningRowKey, field: RunWarningSortField) -> (bool, Seq<char>) {
    match field {
        RunWarningSortField::Phase => (true, w.phase@),
        RunWarningSortField::OccurrenceCount => (false, decimal_int(w.occurrence_count as int)),
        RunWarningSortField::Message => (true, w.message@),
    }
}

/// A warning page cursor records the value its sort orders by: the phase,
/// the message, or the decimal text that reads back as the occurrence count.
pub proof fn lemma_warning_cursor_records_sorted_column(w: WarningRowKey)
    ensures
        warning_sort_value(w, RunWarningSortField::Phase) == (true, w.phase@),
        warning_sort_value(w, RunWarningSortField::Message) == (true, w.message@),
        !warning_sort_value(w, RunWarningSortField::OccurrenceCount).0,
        parse_i64_spec(warning_sort_value(w, RunWarningSortField::OccurrenceCount).1) == Some(w.occurrence_count),
{
    lemma_decimal_int_parses_back(w.occurrence_count as int);
}

/// The cursor that resumes a warning page after `warning`.
pub fn encode_warning_cursor(warning: &WarningRowKey, sort_field: RunWarningSortField, signature: &str) -> (r: Result<
    String,
    ProtocolFailure,
>)
    ensures
        r matches Ok(s) && s@ == row_cursor(
            "run-warnings"@,
            signature@,
            false,
            warning_sort_value(*warning, sort_field).0,
            warning_sort_value(*warning, sort_field).1,
            warning.id,
        ),
{
    let value = match sort_field {
        RunWarningSortField::Phase => text_value(&warning.phase),
        RunWarningSortField::OccurrenceCount => integer_value(warning.occurrence_count),
        RunWarningSortField::Message => text_value(&warning.message),
    };
    Ok(encode_cursor(&row_payload("run-warnings", signature, false, value, warning.id)))
}

/// What a facet page cursor records of the facet it stops at.
#[derive(Debug, Clone)]
pub struct FacetRowKey {
    pub cursor_id: i64,
    pub matching_group_count: i64,
    pub value: String,
}

pub open spec fn facet_sort_value(f: FacetRowKey, by_count: bool) -> (bool, Seq<char>) {
    if by_count {
        (false, decimal_int(f.matching_group_count as int))
    } else {
        (true, f.value@)
    }
}

/// A facet page cursor records the value its sort orders by: the decimal
/// text that reads back as the matching group count, or the facet's value.
pub proof fn lemma_facet_cursor_records_sorted_column(f: FacetRowKey)
    ensures
        !facet_sort_value(f, true).0,
        parse_i64_spec(facet_sort_value(f, true).1) == Some(f.matching_group_count),
        facet_sort_value(f, false) == (true, f.value@),
{
    lemma_decimal_int_parses_back(f.matching_group_count as int);
}

/// The value a selected-root facet cursor records under a sort field.
pub open spec fn selected_root_facet_sort_value(f: FacetRowKey, field: DuplicateFileSelectedRootFacetSortField) -> (bool, Seq<char>) {
    facet_sort_value(f, field == DuplicateFileSelectedRootFacetSortField::MatchingGroupCount)
}

/// The value a drive facet cursor records under a sort field.
pub open spec fn drive_facet_sort_value(f: FacetRowKey, field: DuplicateFileDriveFacetSortField) -> (bool, Seq<char>) {
    facet_sort_value(f, field == DuplicateFileDriveFacetSortField::MatchingGroupCount)
}

/// Selected-root and drive facet cursors record the value their sort
/// orders by: the decimal text that reads back as the matching group count
/// under the count sort, the facet's value under the value sort.
pub proof fn lemma_facet_cursors_follow_their_sort(f: FacetRowKey)
    ensures
        !selected_root_facet_sort_value(f, DuplicateFileSelectedRootFacetSortField::MatchingGroupCount).0,
        parse_i64_spec(selected_root_facet_sort_value(f, DuplicateFileSelectedRootFacetSortField::MatchingGroupCount).1)
            == Some(f.matching_group_count),
        selected_root_facet_sort_value(f, DuplicateFileSelectedRootFacetSortField::Value) == (true, f.value@),
        !drive_facet_sort_value(f, DuplicateFileDriveFacetSortField::MatchingGroupCount).0,
        parse_i64_spec(drive_facet_sort_value(f, DuplicateFileDriveFacetSortField::MatchingGroupCount).1)
            == Some(f.matching_group_count),
        drive_facet_sort_value(f, DuplicateFileDriveFacetSortField::Value) == (true, f.value@),
{
    lemma_facet_cursor_records_sorted_column(f);
}

/// The cursor that resumes a selected-root facet page at `facet`.
pub fn encode_selected_root_facet_cursor(
    facet: &FacetRowKey,
    sort_field: DuplicateFileSelectedRootFacetSortField,
    before: bool,
    signature: &str,
) -> (r: Result<String, ProtocolFailure>)
    ensures
        r matches Ok(s) && s@ == row_cursor(
            "duplicate-file-selected-root-facets"@,
            signature@,
            before,
            selected_root_facet_sort_value(*facet, sort_field).0,
            selected_root_facet_sort_value(*facet, sort_field).1,
            facet.cursor_id,
        ),
{
    let value = match sort_field {
        DuplicateFileSelectedRootFacetSortField::MatchingGroupCount => integer_value(facet.matching_group_count),
        DuplicateFileSelectedRootFacetSortField::Value => text_value(&facet.value),
    };
    Ok(encode_cursor(&row_payload("duplicate-file-selected-root-facets", signature, before, value, facet.cursor_id)))
}

/// The cursor that resumes a drive facet page at `facet`.
pub fn encode_drive_facet_cursor(
    facet: &FacetRowKey,
    sort_field: DuplicateFileDriveFacetSortField,
    before: bool,
    signature: &str,
) -> (r: Result<String, ProtocolFailure>)
    ensures
        r matches Ok(s) && s@ == row_cursor(
            "duplicate-file-drive-facets"@,
            signature@,
            before,
            drive_facet_sort_value(*facet, sort_field).0,
            drive_facet_sort_value(*facet, sort_field).1,
            facet.cursor_id,
        ),
{
    let value = match sort_field {
        DuplicateFileDriveFacetSortField::MatchingGroupCount => integer_value(facet.matching_group_count),
        DuplicateFileDriveFacetSortField::Value => text_value(&facet.value),
    };
    Ok(encode_cursor(&row_payload("duplicate-file-drive-facets", signature, before, value, facet.cursor_id)))
}

/// What a member page cursor records of the file it stops at.
#[derive(Debug, Clone)]
pub struct MemberRowKey {
    pub id: i64,
    pub canonical_path: String,
    pub last_modified: i64,
    pub file_size: i64,
}

pub open spec fn member_sort_value(m: MemberRowKey, field: DuplicateFileMemberSortField) -> (bool, Seq<char>) {
    match field {
        DuplicateFileMemberSortField::Path => (true, m.canonical_path@),
        DuplicateFileMemberSortField::ModifiedTime => (false, decimal_int(m.last_modified as int)),
        DuplicateFileMemberSortField::Size => (false, decimal_int(m.file_size as int)),
    }
}

/// A member page cursor records the value its sort orders by: the path, or
/// the decimal text that reads back as the modification time or the size.
pub proof fn lemma_member_cursor_records_sorted_column(m: MemberRowKey)
    ensures
        member_sort_value(m, DuplicateFileMemberSortField::Path) == (true, m.canonical_path@),
        !member_sort_value(m, DuplicateFileMemberSortField::ModifiedTime).0,
        parse_i64_spec(member_sort_value(m, DuplicateFileMemberSortField::ModifiedTime).1) == Some(m.last_modified),
        !member_sort_value(m, DuplicateFileMemberSortField::Size).0,
        parse_i64_spec(member_sort_value(m, DuplicateFileMemberSortField::Size).1) == Some(m.file_size),
{
    lemma_decimal_int_parses_back(m.last_modified as int);
    lemma_decimal_int_parses_back(m.file_size as int);
}

/// The cursor that resumes a member page at `member`.
pub fn encode_member_cursor(member: &MemberRowKey, sort_field: DuplicateFileMemberSortField, before: bool, signature: &str) -> (r: Result<
    String,
    ProtocolFailure,
>)
    ensures
        r matches Ok(s) && s@ == row_cursor(
            "duplicate-file-members"@,
            signature@,
            before,
            member_sort_value(*member, sort_field).0,
            member_sort_value(*member, sort_field).1,
            member.id,
        ),
{
    let value = match sort_field {
        DuplicateFileMemberSortField::Path => text_value(&member.canonical_path),
        DuplicateFileMemberSortField::ModifiedTime => integer_value(member.last_modified),
        DuplicateFileMemberSortField::Size => integer_value(member.file_size),
    };
    Ok(encode_cursor(&row_payload("duplicate-file-members", signature, before, value, member.id)))
}

/// What a folder group page cursor records of the group it stops at.
#[derive(Debug, Clone)]
pub struct FolderGroupRowKey {
    pub id: i64,
    pub total_size: i64,
    pub folder_count: i64,
    pub file_count: i64,
    pub representative_path: String,
}

pub open spec fn folder_group_sort_value(g: FolderGroupRowKey, field: DuplicateFolderGroupSortField) -> (bool, Seq<char>) {
    match field {
        DuplicateFolderGroupSortField::TotalBytes => (false, decimal_int(g.total_size as int)),
        DuplicateFolderGroupSortField::CopyCount => (false, decimal_int(g.folder_count as int)),
        DuplicateFolderGroupSortField::FileCount => (false, decimal_int(g.file_count as int)),
        DuplicateFolderGroupSortField::RepresentativePath => (true, g.representative_path@),
    }
}

/// A folder group page cursor records the value its sort orders by: the
/// decimal text that reads back as the total size, the copy count (the
/// number of folders) or the file count, or the representative path.
pub proof fn lemma_folder_group_cursor_records_sorted_column(g: FolderGroupRowKey)
    ensures
        !folder_group_sort_value(g, DuplicateFolderGroupSortField::TotalBytes).0,
        parse_i64_spec(folder_group_sort_value(g, DuplicateFolderGroupSortField::TotalBytes).1) == Some(g.total_size),
        !folder_group_sort_value(g, DuplicateFolderGroupSortField::CopyCount).0,
        parse_i64_spec(folder_group_sort_value(g, DuplicateFolderGroupSortField::CopyCount).1) == Some(g.folder_count),
        !folder_group_sort_value(g, DuplicateFolderGroupSortField::FileCount).0,
        parse_i64_spec(folder_group_sort_value(g, DuplicateFolderGroupSortField::FileCount).1) == Some(g.file_count),
        folder_group_sort_value(g, DuplicateFolderGroupSortField::RepresentativePath) == (true, g.representative_path@),
{
    lemma_decimal_int_parses_back(g.total_size as int);
    lemma_decimal_int_parses_back(g.folder_count as int);
    lemma_decimal_int_parses_back(g.file_count as int);
}

/// The cursor that resumes a folder group page at `group`.
pub fn encode_folder_group_cursor(
    group: &FolderGroupRowKey,
    sort_field: DuplicateFolderGroupSortField,
    before: bool,
    signature: &str,
) -> (r: Result<String, ProtocolFailure>)
    ensures
        r matches Ok(s) && s@ == row_cursor(
            "duplicate-folder-groups"@,
            signature@,
            before,
            folder_group_sort_value(*group, sort_field).0,
            folder_group_sort_value(*group, sort_field).1,
            group.id,
        ),
{
    let value = match sort_field {
        DuplicateFolderGroupSortField::TotalBytes => integer_value(group.total_size),
        DuplicateFolderGroupSortField::CopyCount => integer_value(group.folder_count),
        DuplicateFolderGroupSortField::FileCount => integer_value(group.file_count),
        DuplicateFolderGroupSortField::RepresentativePath => text_value(&group.representative_path),
    };
    Ok(encode_cursor(&row_payload("duplicate-folder-groups", signature, before, value, group.id)))
}

/// The cursor that resumes a folder member page at the member with `id`
/// and `path`; folder members are ordered by path.
pub fn encode_folder_member_cursor(id: i64, path: &String, before: bool, signature: &str) -> (r: Result<String, ProtocolFailure>)
    ensures
        r matches Ok(s) && s@ == row_cursor("duplicate-folder-members"@, signature@, before, true, path@, id),
{
    Ok(encode_cursor(&row_payload("duplicate-folder-members", signature, before, text_value(path), id)))
}

/// Whether a page of duplicate files offers a link to the rows before it:
/// when it was reached going forward, or when rows remain in the direction
/// it was read.
pub open spec fn file_page_has_previous(cursor_before: Option<bool>, has_more: bool) -> bool {
    (cursor_before matches Some(b) && !b) || has_more
}

/// Whether a page of duplicate folders offers a link to the rows before
/// it: only a page reached by a cursor does, when it was reached going
/// forward or rows remain in the direction it was read.
pub open spec fn folder_page_has_previous(cursor_before: Option<bool>, has_more: bool) -> bool {
    cursor_before matches Some(b) && (!b || has_more)
}

/// Whether a page offers a link to the rows after it: when it was reached
/// going backward, or when rows remain in the direction it was read.
pub open spec fn page_has_next(cursor_before: Option<bool>, has_more: bool) -> bool {
    (cursor_before matches Some(b) && b) || has_more
}

/// The links a result page offers, given the cursor it was read with
/// (`None` for the first page), whether rows remain in the direction it was
/// read, whether it lists folders, and its number of rows: whether to give
/// a previous cursor (made from its first row) and a next cursor (made
/// from its last row). An empty page offers neither.
pub fn page_links(cursor: Option<&PageCursor>, has_more: bool, folders: bool, row_count: usize) -> (r: (bool, bool))
    ensures
        ({
            let before = match cursor {
                Some(c) => Some(c.before),
                None => None,
            };
            &&& r.0 == (row_count > 0 && if folders {
                folder_page_has_previous(before, has_more)
            } else {
                file_page_has_previous(before, has_more)
            })
            &&& r.1 == (row_count > 0 && page_has_next(before, has_more))
        }),
{
    if row_count == 0 {
        return (false, false);
    }
    let has_previous = match cursor {
        Some(c) => !c.before || has_more,
        None => !folders && has_more,
    };
    let has_next = match cursor {
        Some(c) => c.before || has_more,
        None => has_more,
    };
    (has_previous, has_next)
}

} // verus!
