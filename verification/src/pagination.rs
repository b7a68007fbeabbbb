//! Reverse-chronological pagination over an append-only ledger.
//!
//! A range query walks the ledger newest-first, `size` records at a time.
//! Both ends of a page's window are inclusive, so a full page shows
//! `size + 1` records and consecutive pages share one record at the
//! boundary; this quirk is part of the interface and is kept as it stands.

use vstd::prelude::*;

verus! {

/// How many records a query for `page` skips, counted from the newest
/// record.
pub open spec fn page_skip(page: int, size: int) -> int {
    page * size
}

/// A page shows records at all exactly when the skip distance fits in the
/// ledger's id width (`skip_cap`) and leaves at least one record.
pub open spec fn page_in_window(length: int, page: int, size: int, skip_cap: int) -> bool {
    page_skip(page, size) <= skip_cap && page_skip(page, size) < length
}

/// The id of the newest record of a page, returned first.
pub open spec fn page_newest(length: int, page: int, size: int) -> int {
    length - 1 - page_skip(page, size)
}

/// The id of the oldest record of a page, returned last: `size` ids below
/// the newest, clamped at id 0.
pub open spec fn page_oldest(length: int, page: int, size: int) -> int {
    if page_newest(length, page, size) - size > 0 {
        page_newest(length, page, size) - size
    } else {
        0
    }
}

/// How many records a page shows.
pub open spec fn page_count(length: int, page: int, size: int) -> int {
    page_newest(length, page, size) - page_oldest(length, page, size) + 1
}

/// What a reverse-paginated range query over `records` returns: the page's
/// window in descending id order, or nothing when the skip distance
/// overflows the id width, runs past the ledger, or the ledger is empty.
pub open spec fn paged<T>(records: Seq<T>, page: int, size: int, skip_cap: int) -> Seq<T> {
    if page_in_window(records.len() as int, page, size, skip_cap) {
        Seq::new(
            page_count(records.len() as int, page, size) as nat,
            |k: int| records[page_newest(records.len() as int, page, size) - k],
        )
    } else {
        Seq::empty()
    }
}

} // verus!
