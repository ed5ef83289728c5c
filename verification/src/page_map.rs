//! Physical page boundaries of a column within a row group.
//!
//! A cache entry is keyed by physical page (file, row group, column, page) when the
//! footer holds an offset index. The index is by leaf column: for flat schemas the
//! leaf index is the root index. Files written without a page index have no map, and
//! the caller falls back to a fixed grid of row batches.

use crate::parquet_index;
use crate::parquet_index::{page_first_rows, row_group_num_rows};
use parquet::file::metadata::ParquetMetaData;
use vstd::prelude::*;

verus! {

/// Boundaries of one physical page within a column chunk, with rows counted from the
/// start of the row group.
#[derive(Debug, Clone, Copy, PartialEq, Eq, Structural)]
pub struct PageSpan {
    /// Index of the page within the column chunk, as the cache key carries it.
    pub page_id: u16,
    /// First row of the page.
    pub first_row: usize,
    /// Number of rows in the page.
    pub row_count: usize,
}

impl PageSpan {
    /// The row after the last row of the page.
    pub open spec fn end(self) -> int {
        self.first_row + self.row_count
    }

    /// Whether the page holds `row`.
    pub open spec fn covers(self, row: int) -> bool {
        self.first_row <= row < self.end()
    }

    /// Exclusive end row.
    pub fn end_row(&self) -> (end: usize)
        requires
            self.end() <= usize::MAX,
        ensures
            end == self.end(),
            end == self.first_row + self.row_count,
    {
        self.first_row + self.row_count
    }
}

/// No page starts before an earlier one has ended.
pub open spec fn row_ordered(spans: Seq<PageSpan>) -> bool {
    forall|i: int, j: int|
        #![trigger spans[i], spans[j]]
        0 <= i < j < spans.len() ==> spans[i].end() <= spans[j].first_row
}

/// Each page starts where the one before it ended.
pub open spec fn contiguous(spans: Seq<PageSpan>) -> bool {
    forall|i: int, j: int|
        #![trigger spans[i], spans[j]]
        0 <= i && j == i + 1 && j < spans.len() ==> spans[i].end() == spans[j].first_row
}

/// Each page carries its own position as its id.
pub open spec fn ids_are_positions(spans: Seq<PageSpan>) -> bool {
    forall|i: int| 0 <= i < spans.len() ==> (#[trigger] spans[i]).page_id == i
}

/// Seen from `row`, the pages that have ended come first and those that have not
/// started come last: what a binary search for `row` needs.
pub open spec fn searchable(spans: Seq<PageSpan>, row: int) -> bool {
    forall|i: int, j: int|
        #![trigger spans[i], spans[j]]
        0 <= i < j < spans.len() ==> {
            &&& row < spans[i].first_row ==> row < spans[j].first_row
            &&& spans[j].end() <= row ==> spans[i].end() <= row
        }
}

/// Some page holds `row`.
pub open spec fn covered(spans: Seq<PageSpan>, row: int) -> bool {
    exists|i: int| 0 <= i < spans.len() && (#[trigger] spans[i]).covers(row)
}

/// What a lookup of `row` may return: the id of a page that holds the row, and on pages
/// that are searchable for the row nothing only if no page does.
pub open spec fn lookup_result(spans: Seq<PageSpan>, row: int, page: Option<u16>) -> bool {
    &&& page matches Some(id) ==> exists|i: int|
        0 <= i < spans.len() && (#[trigger] spans[i]).covers(row) && spans[i].page_id == id
    &&& searchable(spans, row) ==> (page is Some <==> covered(spans, row))
}

/// Physical page layout for a single row group and leaf column.
#[derive(Debug)]
pub struct ColumnPageMap {
    spans: Vec<PageSpan>,
}

impl View for ColumnPageMap {
    type V = Seq<PageSpan>;

    closed spec fn view(&self) -> Seq<PageSpan> {
        self.spans@
    }
}

impl Default for ColumnPageMap {
    fn default() -> (map: Self)
        ensures
            map@ == Seq::<PageSpan>::empty(),
    {
        ColumnPageMap { spans: Vec::new() }
    }
}

impl Clone for ColumnPageMap {
    fn clone(&self) -> (map: Self)
        ensures
            map@ == self@,
    {
        let spans = self.spans.clone();
        assert(spans@ =~= self.spans@);
        ColumnPageMap { spans }
    }
}

impl ColumnPageMap {
    /// Builds a map directly from page spans. Lookups by row are complete on spans that
    /// are row-ordered; `span` answers for the page that carries the id when
    /// `spans[i].page_id == i`.
    pub fn from_spans(spans: Vec<PageSpan>) -> (map: Self)
        ensures
            map@ == spans@,
    {
        ColumnPageMap { spans }
    }

    /// Number of pages in the column chunk.
    pub fn page_count(&self) -> (n: usize)
        ensures
            n == self@.len(),
    {
        self.spans.len()
    }

    /// All page spans, in row order.
    pub fn spans(&self) -> (spans: &[PageSpan])
        ensures
            spans@ == self@,
    {
        self.spans.as_slice()
    }

    /// Maps a row (counted from the start of the row group) to the page that holds it.
    ///
    /// A page id is returned only for a page that holds the row. On a map that is
    /// searchable for the row, `None` means that no page holds it.
    pub fn page_of_row(&self, row: usize) -> (page: Option<u16>)
        ensures
            lookup_result(self@, row as int, page),
            page matches Some(id) ==> exists|i: int|
                0 <= i < self@.len() && (#[trigger] self@[i]).page_id == id && self@[i].first_row
                    <= row < self@[i].first_row + self@[i].row_count,
            page is None && (forall|i: int, j: int|
                #![trigger self@[i], self@[j]]
                0 <= i < j < self@.len() ==> {
                    &&& row < self@[i].first_row ==> row < self@[j].first_row
                    &&& self@[j].first_row + self@[j].row_count <= row ==> self@[i].first_row
                        + self@[i].row_count <= row
                }) ==> forall|i: int|
                0 <= i < self@.len() ==> !((#[trigger] self@[i]).first_row <= row
                    < self@[i].first_row + self@[i].row_count),
    {
        let mut low: usize = 0;
        let mut high: usize = self.spans.len();
        while low < high
            invariant
                low <= high <= self.spans@.len(),
                searchable(self.spans@, row as int) ==> forall|i: int|
                    (0 <= i < low || high <= i < self.spans@.len())
                        ==> !(#[trigger] self.spans@[i]).covers(row as int),
            decreases high - low,
        {
            let mid: usize = low + (high - low) / 2;
            let span = self.spans[mid];
            if row < span.first_row {
                high = mid;
            } else if row - span.first_row >= span.row_count {
                low = mid + 1;
            } else {
                assert(self@[mid as int].covers(row as int));
                return Some(span.page_id);
            }
        }
        None
    }

    /// Returns the span for a given page id.
    pub fn span(&self, page_id: u16) -> (span: Option<PageSpan>)
        ensures
            span == if page_id < self@.len() {
                Some(self@[page_id as int])
            } else {
                None
            },
    {
        let index: usize = page_id as usize;
        if index < self.spans.len() {
            Some(self.spans[index])
        } else {
            None
        }
    }
}

/// The first rows that an offset index records for one leaf column of one row group;
/// `None` without an index, and for a row group or column that it does not list.
pub open spec fn column_first_rows(
    index: Option<Seq<Seq<Seq<i64>>>>,
    row_group_idx: int,
    leaf_column_idx: int,
) -> Option<Seq<i64>> {
    match index {
        Some(index) => if row_group_idx < index.len() && leaf_column_idx
            < index[row_group_idx].len() {
            Some(index[row_group_idx][leaf_column_idx])
        } else {
            None
        },
        None => None,
    }
}

/// Where page `i` ends: the first row of the next page, and the end of the row group
/// for the last one.
pub open spec fn next_first_row(first_rows: Seq<i64>, total_rows: i64, i: int) -> usize {
    if i + 1 < first_rows.len() {
        first_rows[i + 1] as usize
    } else {
        total_rows as usize
    }
}

/// The span of page `i`. A page that would end before it starts is empty.
pub open spec fn page_span(first_rows: Seq<i64>, total_rows: i64, i: int) -> PageSpan {
    let first_row = first_rows[i] as usize;
    let next = next_first_row(first_rows, total_rows, i);
    PageSpan {
        page_id: i as u16,
        first_row,
        row_count: if next < first_row {
            0
        } else {
            (next - first_row) as usize
        },
    }
}

/// The spans of all pages of a column whose pages start at `first_rows`.
pub open spec fn layout(first_rows: Seq<i64>, total_rows: i64) -> Seq<PageSpan> {
    Seq::new(first_rows.len(), |i: int| page_span(first_rows, total_rows, i))
}

/// The most pages of a column that can be told apart by a page id.
pub const MAX_PAGES: usize = 0x1_0000;

/// Page spans from the first row of each page and the row count of the row group. There
/// are no more pages than page ids, so each page carries its position.
pub fn page_spans(first_rows: &Vec<i64>, total_rows: i64) -> (spans: Vec<PageSpan>)
    requires
        first_rows@.len() <= MAX_PAGES,
    ensures
        spans@ == layout(first_rows@, total_rows),
        ids_are_positions(spans@),
        spans@.len() == first_rows@.len(),
        forall|i: int|
            #![trigger spans@[i]]
            0 <= i < first_rows@.len() ==> {
                let next = if i + 1 < first_rows@.len() {
                    first_rows@[i + 1] as usize
                } else {
                    total_rows as usize
                };
                &&& spans@[i].page_id == i
                &&& spans@[i].first_row == first_rows@[i] as usize
                &&& spans@[i].row_count == next.saturating_sub(spans@[i].first_row)
            },
{
    let total: usize = total_rows as usize;
    let mut spans: Vec<PageSpan> = Vec::new();
    let mut i: usize = 0;
    while i < first_rows.len()
        invariant
            i <= first_rows@.len() <= MAX_PAGES,
            total == total_rows as usize,
            spans@ == layout(first_rows@, total_rows).take(i as int),
        decreases first_rows@.len() - i,
    {
        let first_row: usize = first_rows[i] as usize;
        let next_first: usize = if i + 1 < first_rows.len() {
            first_rows[i + 1] as usize
        } else {
            total
        };
        spans.push(
            PageSpan {
                page_id: i as u16,
                first_row,
                row_count: next_first.saturating_sub(first_row),
            },
        );
        i += 1;
        assert(spans@ =~= layout(first_rows@, total_rows).take(i as int));
    }
    assert(layout(first_rows@, total_rows).take(i as int) =~= layout(first_rows@, total_rows));
    spans
}

/// The pages that the offset index of `metadata` lists for one column of one row group;
/// `None` also if there are more of them than page ids.
pub open spec fn listed_pages(
    metadata: ParquetMetaData,
    row_group_idx: usize,
    leaf_column_idx: usize,
) -> Option<Seq<i64>> {
    match column_first_rows(
        parquet_index::indexed_first_rows(metadata),
        row_group_idx as int,
        leaf_column_idx as int,
    ) {
        Some(first_rows) => if first_rows.len() == 0 || first_rows.len() > MAX_PAGES {
            None
        } else {
            Some(first_rows)
        },
        None => None,
    }
}

/// Builds the page map for one leaf column of one row group from the offset index of
/// the file. Returns `None` when the file was loaded without a page index, or the index
/// lists no page for the column: the caller then falls back to the batch grid. So it does
/// for a column of more pages than there are page ids: in a map each page carries its
/// position as its id, and no two pages share a cache key.
///
/// A column that the index lists has to lie in a row group of the footer;
/// [`checked_column_page_map`] finds that out for itself.
pub fn column_page_map(
    metadata: &ParquetMetaData,
    row_group_idx: usize,
    leaf_column_idx: usize,
) -> (map: Option<ColumnPageMap>)
    requires
        listed_pages(*metadata, row_group_idx, leaf_column_idx) is Some ==> row_group_idx
            < parquet_index::row_group_rows(*metadata).len(),
    ensures
        match listed_pages(*metadata, row_group_idx, leaf_column_idx) {
            Some(first_rows) => map matches Some(m) && m@ == layout(
                first_rows,
                parquet_index::row_group_rows(*metadata)[row_group_idx as int],
            ),
            None => map is None,
        },
        map matches Some(m) ==> ids_are_positions(m@),
        map is Some <==> {
            &&& parquet_index::indexed_first_rows(*metadata) matches Some(index)
            &&& row_group_idx < index.len()
            &&& leaf_column_idx < index[row_group_idx as int].len()
            &&& 0 < index[row_group_idx as int][leaf_column_idx as int].len() <= 0x1_0000
        },
        map matches Some(m) ==> {
            let pages = parquet_index::indexed_first_rows(*metadata)->0[row_group_idx as int][leaf_column_idx as int];
            let rows = parquet_index::row_group_rows(*metadata)[row_group_idx as int];
            &&& m@.len() == pages.len()
            &&& forall|i: int|
                #![trigger m@[i]]
                0 <= i < pages.len() ==> {
                    let next = if i + 1 < pages.len() {
                        pages[i + 1] as usize
                    } else {
                        rows as usize
                    };
                    &&& m@[i].page_id == i
                    &&& m@[i].first_row == pages[i] as usize
                    &&& m@[i].row_count == next.saturating_sub(m@[i].first_row)
                }
        },
{
    let first_rows = match listed_first_rows(metadata, row_group_idx, leaf_column_idx) {
        Some(first_rows) => first_rows,
        None => return None,
    };
    let total_rows: i64 = row_group_num_rows(metadata, row_group_idx);
    Some(ColumnPageMap { spans: page_spans(&first_rows, total_rows) })
}

/// The pages listed for a column, `None` if there are none or too many.
fn listed_first_rows(
    metadata: &ParquetMetaData,
    row_group_idx: usize,
    leaf_column_idx: usize,
) -> (first_rows: Option<Vec<i64>>)
    ensures
        match listed_pages(*metadata, row_group_idx, leaf_column_idx) {
            Some(pages) => first_rows matches Some(f) && f@ == pages,
            None => first_rows is None,
        },
{
    let index = match metadata.offset_index() {
        Some(index) => index,
        None => return None,
    };
    if row_group_idx >= index.len() {
        return None;
    }
    let columns = &index[row_group_idx];
    if leaf_column_idx >= columns.len() {
        return None;
    }
    let first_rows = page_first_rows(&columns[leaf_column_idx]);
    if first_rows.len() == 0 || first_rows.len() > MAX_PAGES {
        return None;
    }
    Some(first_rows)
}

/// The offset index lists a column of a row group that the footer does not have.
#[derive(Debug, Clone, Copy, PartialEq, Eq, Structural)]
pub struct MissingRowGroup {
    /// The row group that was asked for.
    pub row_group_idx: usize,
}

/// [`column_page_map`] for a footer of which nothing is known: an index entry without
/// its row group is an error. Here too a column of more pages than there are page ids gets
/// no map, and in a map each page carries its position as its id.
pub fn checked_column_page_map(
    metadata: &ParquetMetaData,
    row_group_idx: usize,
    leaf_column_idx: usize,
) -> (map: Result<Option<ColumnPageMap>, MissingRowGroup>)
    ensures
        match listed_pages(*metadata, row_group_idx, leaf_column_idx) {
            Some(first_rows) => if row_group_idx < parquet_index::row_group_rows(*metadata).len() {
                map matches Ok(Some(m)) && m@ == layout(
                    first_rows,
                    parquet_index::row_group_rows(*metadata)[row_group_idx as int],
                )
            } else {
                map == Err::<Option<ColumnPageMap>, _>(MissingRowGroup { row_group_idx })
            },
            None => map matches Ok(None),
        },
        map matches Ok(Some(m)) ==> ids_are_positions(m@),
        map !is Ok || map->Ok_0 is Some <==> {
            &&& parquet_index::indexed_first_rows(*metadata) matches Some(index)
            &&& row_group_idx < index.len()
            &&& leaf_column_idx < index[row_group_idx as int].len()
            &&& 0 < index[row_group_idx as int][leaf_column_idx as int].len() <= 0x1_0000
        },
        map matches Err(missing) ==> missing.row_group_idx == row_group_idx && row_group_idx
            >= parquet_index::row_group_rows(*metadata).len(),
        map matches Ok(Some(m)) ==> row_group_idx < parquet_index::row_group_rows(*metadata).len(),
        map matches Ok(Some(m)) ==> {
            let pages = parquet_index::indexed_first_rows(*metadata)->0[row_group_idx as int][leaf_column_idx as int];
            let rows = parquet_index::row_group_rows(*metadata)[row_group_idx as int];
            &&& m@.len() == pages.len()
            &&& forall|i: int|
                #![trigger m@[i]]
                0 <= i < pages.len() ==> {
                    let next = if i + 1 < pages.len() {
                        pages[i + 1] as usize
                    } else {
                        rows as usize
                    };
                    &&& m@[i].page_id == i
                    &&& m@[i].first_row == pages[i] as usize
                    &&& m@[i].row_count == next.saturating_sub(m@[i].first_row)
                }
        },
{
    if row_group_idx < metadata.num_row_groups() {
        return Ok(column_page_map(metadata, row_group_idx, leaf_column_idx));
    }
    match listed_first_rows(metadata, row_group_idx, leaf_column_idx) {
        Some(_) => Err(MissingRowGroup { row_group_idx }),
        None => Ok(None),
    }
}

/// The first rows of an offset index in order: no page starts before the one in front of
/// it, none starts past the end, and the row count fits a `usize`.
pub open spec fn ordered_first_rows(first_rows: Seq<i64>, total_rows: i64) -> bool {
    &&& first_rows.len() > 0
    &&& 0 <= first_rows[0]
    &&& forall|i: int, j: int|
        #![trigger first_rows[i], first_rows[j]]
        0 <= i < j < first_rows.len() ==> first_rows[i] <= first_rows[j]
    &&& first_rows.last() <= total_rows <= usize::MAX
}

/// The first rows of a well-formed offset index: they are in order, and the first page
/// starts the row group.
pub open spec fn valid_first_rows(first_rows: Seq<i64>, total_rows: i64) -> bool {
    ordered_first_rows(first_rows, total_rows) && first_rows[0] == 0
}

/// Pages without gaps between them are in row order.
pub proof fn contiguous_is_row_ordered(spans: Seq<PageSpan>)
    requires
        contiguous(spans),
    ensures
        row_ordered(spans),
{
    assert forall|i: int, j: int|
        #![trigger spans[i], spans[j]]
        0 <= i < j < spans.len() implies spans[i].end() <= spans[j].first_row by {
        lemma_contiguous_from(spans, i, j);
    }
}

proof fn lemma_contiguous_from(spans: Seq<PageSpan>, i: int, j: int)
    requires
        contiguous(spans),
        0 <= i < j < spans.len(),
    ensures
        spans[i].end() <= spans[j].first_row,
    decreases j - i,
{
    if j > i + 1 {
        lemma_contiguous_from(spans, i, j - 1);
        assert(spans[j - 1].end() == spans[j].first_row);
    }
}

/// Pages in row order can be searched for any row, and no row lies in two of them: a
/// lookup finds the page of a row exactly when there is one, and finds that one.
pub proof fn row_ordered_is_searchable(spans: Seq<PageSpan>, row: int)
    requires
        row_ordered(spans),
    ensures
        searchable(spans, row),
        forall|i: int, j: int|
            0 <= i < spans.len() && 0 <= j < spans.len() && (#[trigger] spans[i]).covers(row) && (
            #[trigger] spans[j]).covers(row) ==> i == j,
{
}

/// Contiguous pages hold the rows from the start of the first to the end of the last, and
/// no others.
pub proof fn contiguous_pages_cover_one_range(spans: Seq<PageSpan>, row: int)
    requires
        spans.len() > 0,
        contiguous(spans),
    ensures
        covered(spans, row) <==> spans[0].first_row <= row < spans.last().end(),
{
    contiguous_is_row_ordered(spans);
    if spans[0].first_row <= row < spans.last().end() {
        lemma_contiguous_leaves_no_row_out(spans, row);
    }
    if covered(spans, row) {
        let i = choose|i: int| 0 <= i < spans.len() && (#[trigger] spans[i]).covers(row);
        assert(spans[0].first_row <= spans[i].first_row);
        assert(spans[i].end() <= spans[spans.len() - 1].end());
    }
}

proof fn lemma_contiguous_leaves_no_row_out(spans: Seq<PageSpan>, row: int)
    requires
        spans.len() > 0,
        contiguous(spans),
        spans[0].first_row <= row < spans.last().end(),
    ensures
        covered(spans, row),
    decreases spans.len(),
{
    if spans.last().covers(row) {
        assert(spans[spans.len() - 1].covers(row));
    } else {
        let front = spans.drop_last();
        assert(spans.len() > 1);
        assert(spans[spans.len() - 2].end() == spans[spans.len() - 1].first_row);
        assert forall|i: int, j: int|
            #![trigger front[i], front[j]]
            0 <= i && j == i + 1 && j < front.len() implies front[i].end() == front[j].first_row by {
            assert(front[i] == spans[i] && front[j] == spans[j]);
        }
        lemma_contiguous_leaves_no_row_out(front, row);
        let i = choose|i: int| 0 <= i < front.len() && (#[trigger] front[i]).covers(row);
        assert(spans[i].covers(row));
    }
}

/// No span of a layout ends past the largest row number, whatever the index holds.
pub proof fn layout_ends_fit(first_rows: Seq<i64>, total_rows: i64, i: int)
    requires
        0 <= i < first_rows.len(),
    ensures
        layout(first_rows, total_rows)[i].end() <= usize::MAX,
{
}

/// The pages of an index in order are contiguous and row-ordered, wherever the first of
/// them starts: they hold the rows from there to the end of the row group, and no others.
pub proof fn ordered_layout_is_contiguous(first_rows: Seq<i64>, total_rows: i64)
    requires
        ordered_first_rows(first_rows, total_rows),
    ensures
        contiguous(layout(first_rows, total_rows)),
        row_ordered(layout(first_rows, total_rows)),
        layout(first_rows, total_rows)[0].first_row == first_rows[0],
        layout(first_rows, total_rows).last().end() == total_rows,
        forall|row: int|
            #[trigger] covered(layout(first_rows, total_rows), row) <==> first_rows[0] <= row
                < total_rows,
        forall|row: int| #[trigger] searchable(layout(first_rows, total_rows), row),
{
    let spans = layout(first_rows, total_rows);
    let last = spans.len() - 1;
    assert forall|i: int, j: int|
        #![trigger spans[i], spans[j]]
        0 <= i && j == i + 1 && j < spans.len() implies spans[i].end() == spans[j].first_row by {
        assert(first_rows[0] <= first_rows[i] <= first_rows[j] <= first_rows[last]);
    }
    contiguous_is_row_ordered(spans);
    assert(first_rows[0] <= first_rows[last]);
    assert forall|row: int| #[trigger]
        covered(spans, row) <==> first_rows[0] <= row < total_rows by {
        contiguous_pages_cover_one_range(spans, row);
    }
    assert forall|row: int| #[trigger] searchable(spans, row) by {
        row_ordered_is_searchable(spans, row);
    }
}

/// The pages of a well-formed index partition the row group: they are contiguous, start
/// at row zero, end at the row count, and each row of the group, and no other row, lies
/// in exactly one page.
pub proof fn layout_partitions_the_row_group(first_rows: Seq<i64>, total_rows: i64)
    requires
        valid_first_rows(first_rows, total_rows),
    ensures
        contiguous(layout(first_rows, total_rows)),
        layout(first_rows, total_rows)[0].first_row == 0,
        layout(first_rows, total_rows).last().end() == total_rows,
        forall|row: int|
            #[trigger] covered(layout(first_rows, total_rows), row) <==> 0 <= row < total_rows,
        forall|row: int, i: int, j: int|
            0 <= i < first_rows.len() && 0 <= j < first_rows.len() && #[trigger] layout(
                first_rows,
                total_rows,
            )[i].covers(row) && #[trigger] layout(first_rows, total_rows)[j].covers(row) ==> i
                == j,
        forall|row: int| #[trigger] searchable(layout(first_rows, total_rows), row),
{
    ordered_layout_is_contiguous(first_rows, total_rows);
}

/// In a layout of no more pages than page ids, each page carries its position.
pub proof fn layout_ids_are_positions(first_rows: Seq<i64>, total_rows: i64)
    requires
        first_rows.len() <= MAX_PAGES,
    ensures
        ids_are_positions(layout(first_rows, total_rows)),
{
}

/// When pages carry their positions, the id that a lookup finds for a row leads back to
/// a page that holds the row.
pub proof fn looked_up_page_holds_the_row(spans: Seq<PageSpan>, row: int, id: u16)
    requires
        ids_are_positions(spans),
        lookup_result(spans, row, Some(id)),
    ensures
        id < spans.len(),
        spans[id as int].covers(row),
{
}

/// On the pages of a well-formed index, a lookup finds for each row of the row group the
/// one page that holds it, and for no other row any page.
pub proof fn every_row_is_mapped(first_rows: Seq<i64>, total_rows: i64, row: int, page: Option<u16>)
    requires
        valid_first_rows(first_rows, total_rows),
        first_rows.len() <= MAX_PAGES,
        lookup_result(layout(first_rows, total_rows), row, page),
    ensures
        page is Some <==> 0 <= row < total_rows,
        page matches Some(id) ==> id < first_rows.len() && layout(first_rows, total_rows)[id as int]
            .covers(row),
        forall|i: int|
            0 <= i < first_rows.len() && #[trigger] layout(first_rows, total_rows)[i].covers(row)
                ==> page == Some(i as u16),
{
    let spans = layout(first_rows, total_rows);
    layout_partitions_the_row_group(first_rows, total_rows);
    layout_ids_are_positions(first_rows, total_rows);
    assert(searchable(spans, row));
    assert(covered(spans, row) <==> 0 <= row < total_rows);
    if let Some(id) = page {
        looked_up_page_holds_the_row(spans, row, id);
    }
    assert forall|i: int|
        0 <= i < first_rows.len() && #[trigger] spans[i].covers(row) implies page == Some(
        i as u16,
    ) by {
        assert(covered(spans, row));
        let id = page->0;
        assert(spans[id as int].covers(row));
    }
}

/// Where the index is in order, each page starts at the row that the index gives for it and
/// holds exactly the rows up to the start of the next page, the last one those up to the end
/// of the row group.
pub proof fn pages_start_and_end_where_the_index_says(first_rows: Seq<i64>, total_rows: i64, i: int)
    requires
        0 <= i < first_rows.len() <= 0x1_0000,
        0 <= first_rows[0],
        forall|j: int, k: int|
            #![trigger first_rows[j], first_rows[k]]
            0 <= j < k < first_rows.len() ==> first_rows[j] <= first_rows[k],
        first_rows[first_rows.len() - 1] <= total_rows <= usize::MAX,
    ensures
        layout(first_rows, total_rows).len() == first_rows.len(),
        layout(first_rows, total_rows)[i].page_id == i,
        layout(first_rows, total_rows)[i].first_row == first_rows[i],
        layout(first_rows, total_rows)[i].first_row + layout(first_rows, total_rows)[i].row_count
            == if i + 1 < first_rows.len() {
            first_rows[i + 1]
        } else {
            total_rows
        },
        forall|row: int|
            #[trigger] layout(first_rows, total_rows)[i].covers(row) <==> first_rows[i] <= row < if i
                + 1 < first_rows.len() {
                first_rows[i + 1]
            } else {
                total_rows
            },
{
    let last = first_rows.len() - 1;
    assert(first_rows[0] <= first_rows[i] <= first_rows[last]);
    if i < last {
        assert(first_rows[i] <= first_rows[i + 1] <= first_rows[last]);
    }
}

/// Where the index is in order, the page that a lookup finds for a row is the one between
/// whose start and the start of the next page the row lies, and there is none only for a row
/// before the first page or past the row group.
pub proof fn a_row_lies_between_the_page_starts(
    first_rows: Seq<i64>,
    total_rows: i64,
    row: int,
    page: Option<u16>,
)
    requires
        0 < first_rows.len() <= 0x1_0000,
        0 <= first_rows[0],
        forall|j: int, k: int|
            #![trigger first_rows[j], first_rows[k]]
            0 <= j < k < first_rows.len() ==> first_rows[j] <= first_rows[k],
        first_rows[first_rows.len() - 1] <= total_rows <= usize::MAX,
        lookup_result(layout(first_rows, total_rows), row, page),
    ensures
        page is Some <==> first_rows[0] <= row < total_rows,
        page matches Some(id) ==> {
            &&& id < first_rows.len()
            &&& first_rows[id as int] <= row
            &&& row < if id + 1 < first_rows.len() {
                first_rows[id + 1]
            } else {
                total_rows
            }
        },
{
    let spans = layout(first_rows, total_rows);
    ordered_layout_is_contiguous(first_rows, total_rows);
    layout_ids_are_positions(first_rows, total_rows);
    assert(searchable(spans, row));
    assert(covered(spans, row) <==> first_rows[0] <= row < total_rows);
    if let Some(id) = page {
        looked_up_page_holds_the_row(spans, row, id);
        pages_start_and_end_where_the_index_says(first_rows, total_rows, id as int);
    }
}

/// A page depends on its own start and on where the next one starts, and on nothing else of
/// the index.
pub proof fn a_page_depends_on_two_starts(
    a: Seq<i64>,
    b: Seq<i64>,
    total_a: i64,
    total_b: i64,
    i: int,
)
    requires
        0 <= i < a.len(),
        i < b.len(),
        a[i] == b[i],
        i + 1 < a.len() && i + 1 < b.len() && a[i + 1] == b[i + 1] || i + 1 == a.len() && i + 1
            == b.len() && total_a == total_b,
    ensures
        layout(a, total_a)[i] == layout(b, total_b)[i],
{
}

/// The pages of a column are those that the index records for that row group and column, and
/// there are none for a row group or a column that it does not list.
pub proof fn a_column_has_the_pages_of_its_entry(
    index: Seq<Seq<Seq<i64>>>,
    row_group_idx: int,
    leaf_column_idx: int,
)
    requires
        0 <= row_group_idx,
        0 <= leaf_column_idx,
    ensures
        row_group_idx < index.len() && leaf_column_idx < index[row_group_idx].len()
            ==> column_first_rows(Some(index), row_group_idx, leaf_column_idx) == Some(
            index[row_group_idx][leaf_column_idx],
        ),
        row_group_idx >= index.len() || leaf_column_idx >= index[row_group_idx].len()
            ==> column_first_rows(Some(index), row_group_idx, leaf_column_idx) is None,
        column_first_rows(None, row_group_idx, leaf_column_idx) is None,
{
}

/// What an index records for other columns and row groups does not matter: changing any other
/// entry leaves the pages of a column as they are.
pub proof fn other_entries_do_not_matter(
    index: Seq<Seq<Seq<i64>>>,
    row_group_idx: int,
    leaf_column_idx: int,
    other_group: int,
    other_leaf: int,
    pages: Seq<i64>,
)
    requires
        0 <= row_group_idx < index.len(),
        0 <= leaf_column_idx < index[row_group_idx].len(),
        0 <= other_group < index.len(),
        0 <= other_leaf < index[other_group].len(),
    ensures
        ({
            let changed = index.update(other_group, index[other_group].update(other_leaf, pages));
            column_first_rows(Some(changed), row_group_idx, leaf_column_idx) == if row_group_idx
                == other_group && leaf_column_idx == other_leaf {
                Some(pages)
            } else {
                column_first_rows(Some(index), row_group_idx, leaf_column_idx)
            }
        }),
{
}

/// A map is owed for every listed column of at least one and at most 65536 pages.
pub proof fn a_listed_column_has_its_pages(
    metadata: ParquetMetaData,
    row_group_idx: usize,
    leaf_column_idx: usize,
)
    ensures
        match parquet_index::indexed_first_rows(metadata) {
            Some(index) => {
                let listed = row_group_idx < index.len() && leaf_column_idx
                    < index[row_group_idx as int].len() && 0
                    < index[row_group_idx as int][leaf_column_idx as int].len() <= 0x1_0000;
                &&& listed ==> listed_pages(metadata, row_group_idx, leaf_column_idx) == Some(
                    index[row_group_idx as int][leaf_column_idx as int],
                )
                &&& !listed ==> listed_pages(metadata, row_group_idx, leaf_column_idx) is None
            },
            None => listed_pages(metadata, row_group_idx, leaf_column_idx) is None,
        },
{
}

} // verus!
