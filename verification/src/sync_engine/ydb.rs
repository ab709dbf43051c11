//! Rows of YACReader's `.ydb` database: how they are read into comics, and how
//! pulled progress changes them.

use crate::clock;
use crate::clock::now_epoch_secs;
use crate::decimal;
use crate::decimal::format_i64;
use crate::sync_engine::paths;
use crate::sync_engine::paths::normalize_path;
use crate::text::concat3;
use crate::types;
use crate::types::{ComicProgress, SyncError};
use vstd::prelude::*;
use vstd::string::*;

verus! {

/// The progress columns of one row of `comic_info`.
#[derive(Debug, Clone, Copy, PartialEq)]
pub struct YdbRow {
    pub current_page: i32,
    pub read: bool,
    pub has_been_opened: bool,
    pub last_time_opened: Option<i64>,
    pub num_pages: i32,
}

/// An integer column, 0 where it is NULL.
pub open spec fn or_zero(column: Option<i32>) -> i32 {
    match column {
        Some(v) => v,
        None => 0,
    }
}

/// A flag column: set where it holds anything but 0 or NULL.
pub open spec fn is_set(column: Option<i32>) -> bool {
    or_zero(column) != 0
}

/// A text column, empty where it is NULL or no text.
pub open spec fn or_empty(column: Option<Seq<char>>) -> Seq<char> {
    match column {
        Some(t) => t,
        None => Seq::empty(),
    }
}

/// An integer column, 0 where it is NULL.
fn int_column(column: Option<i32>) -> (r: i32)
    ensures
        r == or_zero(column),
{
    match column {
        Some(v) => v,
        None => 0,
    }
}

/// A text column, empty where it is NULL or no text.
fn text_column(column: Option<String>) -> (r: String)
    ensures
        r@ == or_empty(crate::text::opt_text(column)),
{
    match column {
        Some(t) => t,
        None => {
            let r = String::new();
            assert(r@ =~= Seq::<char>::empty());
            r
        },
    }
}

/// The progress columns as they come from a query, in the order of the fields
/// of [`YdbRow`].
pub fn decode_row(
    current_page: Option<i32>,
    read: Option<i32>,
    has_been_opened: Option<i32>,
    last_time_opened: Option<i64>,
    num_pages: Option<i32>,
) -> (r: YdbRow)
    ensures
        r == (YdbRow {
            current_page: or_zero(current_page),
            read: is_set(read),
            has_been_opened: is_set(has_been_opened),
            last_time_opened,
            num_pages: or_zero(num_pages),
        }),
{
    YdbRow {
        current_page: int_column(current_page),
        read: int_column(read) != 0,
        has_been_opened: int_column(has_been_opened) != 0,
        last_time_opened,
        num_pages: int_column(num_pages),
    }
}

/// The columns of one comic as they come from a query, before NULLs are
/// replaced.
#[derive(Debug, Clone)]
pub struct ComicColumns {
    pub comic_info_id: i64,
    pub comic_id: i64,
    pub current_page: Option<i32>,
    pub num_pages: Option<i32>,
    pub read: Option<i32>,
    pub has_been_opened: Option<i32>,
    pub last_time_opened: Option<i64>,
    pub hash: Option<String>,
    pub path: Option<String>,
    pub file_name: Option<String>,
}

/// The comic that a row describes.
pub fn comic_from_columns(row: ComicColumns) -> (r: ComicProgress)
    ensures
        r.comic_info_id == row.comic_info_id,
        r.comic_id == row.comic_id,
        r.current_page == or_zero(row.current_page),
        r.num_pages == or_zero(row.num_pages),
        r.read == is_set(row.read),
        r.has_been_opened == is_set(row.has_been_opened),
        r.last_time_opened == row.last_time_opened,
        r.hash == row.hash,
        r.relative_path@ == paths::placed_under(
            or_empty(crate::text::opt_text(row.path)),
            or_empty(crate::text::opt_text(row.file_name)),
        ),
{
    let path = text_column(row.path);
    let file_name = text_column(row.file_name);
    ComicProgress {
        comic_info_id: row.comic_info_id,
        comic_id: row.comic_id,
        current_page: int_column(row.current_page),
        num_pages: int_column(row.num_pages),
        read: int_column(row.read) != 0,
        has_been_opened: int_column(row.has_been_opened) != 0,
        last_time_opened: row.last_time_opened,
        hash: row.hash,
        relative_path: normalize_path(path.as_str(), file_name.as_str()),
    }
}

/// The number of pages that decides whether a page completes the comic: the
/// row's own where it has one, otherwise the caller's.
pub open spec fn effective_pages(row: YdbRow, num_pages: i32) -> i32 {
    if row.num_pages > 0 {
        row.num_pages
    } else {
        num_pages
    }
}

/// The later of two optional times; an absent one loses.
pub open spec fn later_time(a: Option<i64>, b: Option<i64>) -> Option<i64> {
    match (a, b) {
        (Some(x), Some(y)) => if x >= y {
            Some(x)
        } else {
            Some(y)
        },
        (Some(x), None) => Some(x),
        (None, y) => y,
    }
}

/// The page that a write leaves in the row.
pub open spec fn written_page(row: YdbRow, page: i32, allow_regression: bool) -> i32 {
    if allow_regression || page > row.current_page {
        page
    } else {
        row.current_page
    }
}

/// The `read` flag that a write leaves in the row. Reaching the last page
/// completes the comic, except in a regression, which it would fight.
pub open spec fn written_read(
    row: YdbRow,
    page: i32,
    num_pages: i32,
    read: bool,
    allow_regression: bool,
) -> bool {
    if allow_regression {
        read
    } else {
        ||| row.read
        ||| read
        ||| effective_pages(row, num_pages) > 0 && written_page(row, page, allow_regression)
            >= effective_pages(row, num_pages)
    }
}

/// The row without regard to time: page, `read` and the sticky opened flag.
pub open spec fn written_content(
    row: YdbRow,
    page: i32,
    num_pages: i32,
    read: bool,
    allow_regression: bool,
) -> YdbRow {
    let new_page = written_page(row, page, allow_regression);
    let new_read = written_read(row, page, num_pages, read, allow_regression);
    YdbRow {
        current_page: new_page,
        read: new_read,
        has_been_opened: row.has_been_opened || new_page > 0 || new_read,
        ..row
    }
}

/// The row that a write leaves behind. The time only advances; `now` stands in
/// for a missing time where the content changes.
pub open spec fn written_row(
    row: YdbRow,
    page: i32,
    num_pages: i32,
    read: bool,
    allow_regression: bool,
    last_time_opened: Option<i64>,
    now: i64,
) -> YdbRow {
    let content = written_content(row, page, num_pages, read, allow_regression);
    YdbRow {
        last_time_opened: later_time(
            row.last_time_opened,
            if last_time_opened is None && content != row {
                Some(now)
            } else {
                last_time_opened
            },
        ),
        ..content
    }
}

/// The text for a row that does not exist.
pub open spec fn missing_row_text(ydb_path: Seq<char>, comic_info_id: i64) -> Seq<char> {
    "comic_info_id "@ + decimal::decimal(comic_info_id as int) + " not found in "@ + ydb_path
}

/// What a write does at the time `now`: an error for a missing row, nothing
/// where the row already holds the result, otherwise the row to store.
pub open spec fn write_outcome(
    existing: Option<YdbRow>,
    ydb_path: Seq<char>,
    comic_info_id: i64,
    page: i32,
    num_pages: i32,
    read: bool,
    allow_regression: bool,
    last_time_opened: Option<i64>,
    now: i64,
) -> Result<Option<YdbRow>, types::ErrorView> {
    match existing {
        None => Err(types::ErrorView::Database(missing_row_text(ydb_path, comic_info_id))),
        Some(row) => {
            let new = written_row(
                row,
                page,
                num_pages,
                read,
                allow_regression,
                last_time_opened,
                now,
            );
            if new == row {
                Ok(None)
            } else {
                Ok(Some(new))
            }
        },
    }
}

/// Decides how pulled progress changes the row `existing` of the comic at the
/// time `now`; `Ok(None)` means that the row stays as it is.
///
/// By default a write is monotonic: the page never goes down, a set `read` is
/// never cleared, and reaching the last page raises `read`. With
/// `allow_regression` the page and `read` are taken verbatim. In both modes the
/// opened flag is sticky and the time only advances.
pub fn plan_write(
    existing: Option<YdbRow>,
    ydb_path: &str,
    comic_info_id: i64,
    page: i32,
    num_pages: i32,
    read: bool,
    allow_regression: bool,
    last_time_opened: Option<i64>,
    now: i64,
) -> (r: Result<Option<YdbRow>, SyncError>)
    ensures
        types::outcome(r) == write_outcome(
            existing,
            ydb_path@,
            comic_info_id,
            page,
            num_pages,
            read,
            allow_regression,
            last_time_opened,
            now,
        ),
{
    let row = match existing {
        Some(row) => row,
        None => {
            let id = format_i64(comic_info_id);
            let mut message = concat3("comic_info_id ", id.as_str(), " not found in ");
            message.append(ydb_path);
            return Err(SyncError::Database(message));
        },
    };

    let pages: i32 = if row.num_pages > 0 {
        row.num_pages
    } else {
        num_pages
    };
    let new_page: i32 = if allow_regression || page > row.current_page {
        page
    } else {
        row.current_page
    };
    let new_read = if allow_regression {
        read
    } else {
        row.read || read || (pages > 0 && new_page >= pages)
    };
    let new_opened = row.has_been_opened || new_page > 0 || new_read;
    let content_changed = new_page != row.current_page || new_read != row.read || new_opened
        != row.has_been_opened;

    let candidate: Option<i64> = match last_time_opened {
        Some(ts) => Some(ts),
        None => if content_changed {
            Some(now)
        } else {
            None
        },
    };
    let new_time: Option<i64> = match (row.last_time_opened, candidate) {
        (Some(e), Some(c)) => if e >= c {
            Some(e)
        } else {
            Some(c)
        },
        (Some(e), None) => Some(e),
        (None, c) => c,
    };
    let time_changed = match (new_time, row.last_time_opened) {
        (Some(n), Some(e)) => n != e,
        (None, None) => false,
        _ => true,
    };

    if !content_changed && !time_changed {
        return Ok(None);
    }
    Ok(
        Some(
            YdbRow {
                current_page: new_page,
                read: new_read,
                has_been_opened: new_opened,
                last_time_opened: new_time,
                num_pages: row.num_pages,
            },
        ),
    )
}

/// Decides how pulled progress changes the row `existing` of the comic, at the
/// time of the call; see [`plan_write`].
pub fn write_yac_progress(
    existing: Option<YdbRow>,
    ydb_path: &str,
    comic_info_id: i64,
    page: i32,
    num_pages: i32,
    read: bool,
    allow_regression: bool,
    last_time_opened: Option<i64>,
) -> (r: Result<Option<YdbRow>, SyncError>)
    ensures
        exists|now: i64|
            clock::clock_reads(now) && types::outcome(r) == #[trigger] write_outcome(
                existing,
                ydb_path@,
                comic_info_id,
                page,
                num_pages,
                read,
                allow_regression,
                last_time_opened,
                now,
            ),
{
    let now: i64 = now_epoch_secs();
    plan_write(
        existing,
        ydb_path,
        comic_info_id,
        page,
        num_pages,
        read,
        allow_regression,
        last_time_opened,
        now,
    )
}

/// A default write loses nothing: the page does not go down and a set `read`
/// stays set, whatever is pulled.
pub proof fn default_write_is_monotonic(
    row: YdbRow,
    page: i32,
    num_pages: i32,
    read: bool,
    last_time_opened: Option<i64>,
    now: i64,
)
    ensures
        ({
            let new = written_row(row, page, num_pages, read, false, last_time_opened, now);
            &&& new.current_page >= row.current_page
            &&& new.current_page >= page
            &&& row.read || read ==> new.read
            &&& new.read && !row.read && !read ==> effective_pages(row, num_pages) > 0
                && new.current_page >= effective_pages(row, num_pages)
        }),
{
}

/// A regression write leaves exactly the page and the flag it was given.
pub proof fn regression_write_is_verbatim(
    row: YdbRow,
    page: i32,
    num_pages: i32,
    read: bool,
    last_time_opened: Option<i64>,
    now: i64,
)
    ensures
        ({
            let new = written_row(row, page, num_pages, read, true, last_time_opened, now);
            new.current_page == page && new.read == read
        }),
{
}

/// In both modes a comic that was opened stays opened, the time never goes
/// back, and the number of pages is left alone.
pub proof fn write_keeps_opened_and_time(
    row: YdbRow,
    page: i32,
    num_pages: i32,
    read: bool,
    allow_regression: bool,
    last_time_opened: Option<i64>,
    now: i64,
)
    ensures
        ({
            let new = written_row(
                row,
                page,
                num_pages,
                read,
                allow_regression,
                last_time_opened,
                now,
            );
            &&& row.has_been_opened ==> new.has_been_opened
            &&& new.current_page > 0 || new.read ==> new.has_been_opened
            &&& row.last_time_opened matches Some(before) ==> new.last_time_opened matches Some(
                after,
            ) && after >= before
            &&& new.num_pages == row.num_pages
        }),
{
}

/// Applying the same progress a second time, at any later call, changes
/// nothing.
pub proof fn write_is_idempotent(
    row: YdbRow,
    page: i32,
    num_pages: i32,
    read: bool,
    allow_regression: bool,
    last_time_opened: Option<i64>,
    now: i64,
    later: i64,
)
    ensures
        ({
            let new = written_row(
                row,
                page,
                num_pages,
                read,
                allow_regression,
                last_time_opened,
                now,
            );
            written_row(new, page, num_pages, read, allow_regression, last_time_opened, later)
                == new
        }),
{
}

/// Where the content stays and no time is given, the row is not touched: the
/// clock alone never causes a write.
pub proof fn unchanged_content_is_not_written(
    row: YdbRow,
    ydb_path: Seq<char>,
    comic_info_id: i64,
    page: i32,
    num_pages: i32,
    read: bool,
    allow_regression: bool,
    now: i64,
)
    requires
        written_content(row, page, num_pages, read, allow_regression) == row,
    ensures
        write_outcome(
            Some(row),
            ydb_path,
            comic_info_id,
            page,
            num_pages,
            read,
            allow_regression,
            None,
            now,
        ) == Ok::<Option<YdbRow>, types::ErrorView>(None),
{
}

/// A write succeeds exactly where the row exists; for a missing row the error
/// names the comic and the file.
pub proof fn write_needs_the_row(
    existing: Option<YdbRow>,
    ydb_path: Seq<char>,
    comic_info_id: i64,
    page: i32,
    num_pages: i32,
    read: bool,
    allow_regression: bool,
    last_time_opened: Option<i64>,
    now: i64,
)
    ensures
        ({
            let outcome = write_outcome(
                existing,
                ydb_path,
                comic_info_id,
                page,
                num_pages,
                read,
                allow_regression,
                last_time_opened,
                now,
            );
            &&& outcome is Ok <==> existing is Some
            &&& outcome matches Err(e) ==> e == types::ErrorView::Database(
                "comic_info_id "@ + decimal::decimal(comic_info_id as int) + " not found in "@
                    + ydb_path,
            )
        }),
{
}

/// What a write leaves in the `.ydb`, whether it stores a row or finds nothing
/// to store. With the permission to regress the row holds exactly the page and
/// the flag that were given. By default it holds the greater of the two pages,
/// and the flag where it was set, where it was asked for, or where that page
/// reaches the last one. The opened flag is set where it was, and by any
/// progress; the number of pages stays.
pub proof fn write_leaves_the_progress_it_was_given(
    row: YdbRow,
    ydb_path: Seq<char>,
    comic_info_id: i64,
    page: i32,
    num_pages: i32,
    read: bool,
    allow_regression: bool,
    last_time_opened: Option<i64>,
    now: i64,
)
    ensures
        ({
            let left = match write_outcome(
                Some(row),
                ydb_path,
                comic_info_id,
                page,
                num_pages,
                read,
                allow_regression,
                last_time_opened,
                now,
            ) {
                Ok(Some(new)) => new,
                _ => row,
            };
            let last_page = if row.num_pages > 0 {
                row.num_pages
            } else {
                num_pages
            };
            &&& allow_regression ==> left.current_page == page && left.read == read
            &&& !allow_regression ==> {
                &&& left.current_page >= page && left.current_page >= row.current_page
                &&& left.current_page == page || left.current_page == row.current_page
                &&& left.read <==> row.read || read || 0 < last_page <= left.current_page
            }
            &&& left.has_been_opened <==> row.has_been_opened || left.current_page > 0
                || left.read
            &&& left.num_pages == row.num_pages
        }),
{
}

/// A row is stored only where it differs from the one that is there, and
/// nothing is stored only where the row already holds the page, the flag and
/// the time that were given: those very ones with the permission to regress,
/// by default no less.
pub proof fn write_stores_only_changes(
    row: YdbRow,
    ydb_path: Seq<char>,
    comic_info_id: i64,
    page: i32,
    num_pages: i32,
    read: bool,
    allow_regression: bool,
    last_time_opened: Option<i64>,
    now: i64,
)
    ensures
        ({
            let outcome = write_outcome(
                Some(row),
                ydb_path,
                comic_info_id,
                page,
                num_pages,
                read,
                allow_regression,
                last_time_opened,
                now,
            );
            let reached = if allow_regression {
                row.current_page == page && row.read == read
            } else {
                row.current_page >= page && (read ==> row.read)
            };
            &&& outcome matches Ok(Some(new)) ==> new != row
            &&& outcome == Ok::<Option<YdbRow>, types::ErrorView>(None) ==> reached && (
            last_time_opened matches Some(t) ==> row.last_time_opened matches Some(before)
                && before >= t)
        }),
{
}

/// The time that a write leaves: the later of the row's own and the given one.
/// Where none is given, the time of the call stands in for it if page, `read`
/// or the opened flag changed; otherwise the row keeps its own.
pub proof fn write_moves_the_time_only_forward(
    row: YdbRow,
    ydb_path: Seq<char>,
    comic_info_id: i64,
    page: i32,
    num_pages: i32,
    read: bool,
    allow_regression: bool,
    last_time_opened: Option<i64>,
    now: i64,
)
    ensures
        ({
            let left = match write_outcome(
                Some(row),
                ydb_path,
                comic_info_id,
                page,
                num_pages,
                read,
                allow_regression,
                last_time_opened,
                now,
            ) {
                Ok(Some(new)) => new,
                _ => row,
            };
            let changed = left.current_page != row.current_page || left.read != row.read
                || left.has_been_opened != row.has_been_opened;
            let time = match last_time_opened {
                Some(t) => t,
                None => now,
            };
            &&& last_time_opened is Some || changed ==> (left.last_time_opened matches Some(after)
                && after >= time && (row.last_time_opened matches Some(before) ==> after >= before)
                && (after == time || row.last_time_opened == Some(after)))
            &&& last_time_opened is None && !changed ==> left.last_time_opened
                == row.last_time_opened
        }),
{
}

/// A column that is NULL counts as 0, as unset, or as empty; any other number
/// than 0 sets a flag.
pub proof fn null_columns_count_as_nothing(number: i32, words: Seq<char>)
    ensures
        or_zero(None) == 0,
        or_zero(Some(number)) == number,
        !is_set(None),
        is_set(Some(number)) <==> number != 0,
        or_empty(None).len() == 0,
        or_empty(Some(words)) == words,
{
}

/// A row that was stored reads back as it was, whichever way its flags are
/// written, and a comic that is read from the same columns has the same
/// progress.
pub proof fn stored_row_reads_back(
    row: YdbRow,
    read: i32,
    opened: i32,
    again: YdbRow,
    columns: ComicColumns,
    comic: ComicProgress,
)
    requires
        read != 0 <==> row.read,
        opened != 0 <==> row.has_been_opened,
        call_ensures(
            decode_row,
            (
                Some(row.current_page),
                Some(read),
                Some(opened),
                row.last_time_opened,
                Some(row.num_pages),
            ),
            again,
        ),
        columns.current_page == Some(row.current_page),
        columns.num_pages == Some(row.num_pages),
        columns.read == Some(read),
        columns.has_been_opened == Some(opened),
        columns.last_time_opened == row.last_time_opened,
        call_ensures(comic_from_columns, (columns,), comic),
    ensures
        (columns.path matches Some(path) ==> columns.file_name matches Some(name)
            ==> comic.relative_path@ == paths::placed_under(path@, name@)),
        again == row,
        comic.current_page == row.current_page,
        comic.num_pages == row.num_pages,
        comic.read == row.read,
        comic.has_been_opened == row.has_been_opened,
        comic.last_time_opened == row.last_time_opened,
        comic.comic_info_id == columns.comic_info_id,
        comic.comic_id == columns.comic_id,
        comic.hash == columns.hash,
{
}

/// What a write hands out, at whatever time it is made: an error exactly for a
/// missing row; otherwise the `.ydb` is left with exactly the page and the flag
/// that were given where the write may regress, and by default with at least
/// that page, and the flag where it was given.
pub proof fn write_hands_out_what_was_pulled(
    existing: Option<YdbRow>,
    ydb_path: &str,
    comic_info_id: i64,
    page: i32,
    num_pages: i32,
    read: bool,
    allow_regression: bool,
    last_time_opened: Option<i64>,
    now: i64,
    r: Result<Option<YdbRow>, SyncError>,
)
    requires
        call_ensures(
            plan_write,
            (
                existing,
                ydb_path,
                comic_info_id,
                page,
                num_pages,
                read,
                allow_regression,
                last_time_opened,
                now,
            ),
            r,
        ) || call_ensures(
            write_yac_progress,
            (
                existing,
                ydb_path,
                comic_info_id,
                page,
                num_pages,
                read,
                allow_regression,
                last_time_opened,
            ),
            r,
        ),
    ensures
        r is Ok <==> existing is Some,
        existing matches Some(row) ==> {
            let left = match r {
                Ok(Some(new)) => new,
                _ => row,
            };
            &&& allow_regression ==> left.current_page == page && left.read == read
            &&& !allow_regression ==> {
                &&& left.current_page >= page && left.current_page >= row.current_page
                &&& left.current_page == page || left.current_page == row.current_page
                &&& read || row.read ==> left.read
            }
        },
{
    let at = if call_ensures(
        plan_write,
        (
            existing,
            ydb_path,
            comic_info_id,
            page,
            num_pages,
            read,
            allow_regression,
            last_time_opened,
            now,
        ),
        r,
    ) {
        now
    } else {
        choose|at: i64|
            clock::clock_reads(at) && types::outcome(r) == #[trigger] write_outcome(
                existing,
                ydb_path@,
                comic_info_id,
                page,
                num_pages,
                read,
                allow_regression,
                last_time_opened,
                at,
            )
    };
    write_needs_the_row(
        existing,
        ydb_path@,
        comic_info_id,
        page,
        num_pages,
        read,
        allow_regression,
        last_time_opened,
        at,
    );
    if let Some(row) = existing {
        write_leaves_the_progress_it_was_given(
            row,
            ydb_path@,
            comic_info_id,
            page,
            num_pages,
            read,
            allow_regression,
            last_time_opened,
            at,
        );
    }
}

} // verus!
