//! The rules of the run-warning page: which requests it serves, which
//! cursors it accepts, and how a read of one row more than the page size
//! becomes a page and a flag for more rows.
use vstd::prelude::*;
use crate::cursor::{invalid_cursor, invalid_cursor_failure, PageCursor};
use crate::failure::{failure, str_equals, FailureView, ProtocolFailure};
use crate::validate::MAXIMUM_PAGE_SIZE;

verus! {

pub open spec fn warning_page_request_failure() -> FailureView {
    failure("invalid_request"@, "warning.page requires a positive runId and pageSize between 1 and 500"@, seq![])
}

/// A warning page names a run and asks for 1 to 500 rows.
pub fn check_warning_page_request(run_id: i64, page_size: i64) -> (r: Result<(), ProtocolFailure>)
    ensures
        r is Ok <==> (run_id > 0 && 1 <= page_size <= MAXIMUM_PAGE_SIZE),
        r matches Err(f) ==> f@ =~~= warning_page_request_failure(),
{
    if run_id <= 0 || !(1 <= page_size && page_size <= MAXIMUM_PAGE_SIZE) {
        return Err(
            ProtocolFailure::new("invalid_request", "warning.page requires a positive runId and pageSize between 1 and 500"),
        );
    }
    Ok(())
}

/// Warning pages are read forward only: a cursor that points backward is
/// refused.
pub fn check_warning_cursor_direction(cursor: Option<&PageCursor>) -> (r: Result<(), ProtocolFailure>)
    ensures
        r is Ok <==> !(cursor matches Some(c) && c.before),
        r matches Err(f) ==> f@ =~~= invalid_cursor_failure(),
{
    match cursor {
        Some(c) => if c.before {
            Err(invalid_cursor())
        } else {
            Ok(())
        },
        None => Ok(()),
    }
}

/// A cursor belongs to the warning snapshot it was read from: when the page
/// was asked with a cursor, the snapshot read now must have the revision
/// and run status seen when the cursor was checked.
pub fn check_warning_snapshot_unchanged(
    cursor_identity: Option<(i64, &str)>,
    revision: i64,
    run_status: &str,
) -> (r: Result<(), ProtocolFailure>)
    ensures
        r is Ok <==> match cursor_identity {
            Some((seen_revision, seen_status)) => seen_revision == revision && seen_status@ == run_status@,
            None => true,
        },
        r matches Err(f) ==> f@ =~~= invalid_cursor_failure(),
{
    match cursor_identity {
        Some((seen_revision, seen_status)) => {
            if seen_revision != revision || !str_equals(seen_status, run_status) {
                Err(invalid_cursor())
            } else {
                Ok(())
            }
        },
        None => Ok(()),
    }
}

/// Cuts a read of up to `page_size + 1` rows down to the page: keeps the
/// first `page_size` rows and says whether there were more.
pub fn take_page<T>(rows: &mut Vec<T>, page_size: usize) -> (has_more: bool)
    ensures
        has_more == (old(rows)@.len() > page_size),
        final(rows)@ == if has_more {
            old(rows)@.subrange(0, page_size as int)
        } else {
            old(rows)@
        },
{
    let has_more = rows.len() > page_size;
    if has_more {
        rows.truncate(page_size);
    }
    has_more
}

} // verus!
