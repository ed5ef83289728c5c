//! What page maps and access plans read out of a Parquet footer.
//!
//! A [`ParquetMetaData`] is opaque here. Two names stand for what it holds: the
//! row count of each row group, and the first row of each page by row group and
//! leaf column. The items below are the only places where the two are tied to the
//! `parquet` crate.

use parquet::file::metadata::ParquetMetaData;
use parquet::file::page_index::offset_index::OffsetIndexMetaData;
use vstd::prelude::*;

verus! {

/// Declares `parquet::file::metadata::ParquetMetaData`, the parsed footer of one file.
#[verifier::external_type_specification]
#[verifier::external_body]
pub struct ExParquetMetaData(parquet::file::metadata::ParquetMetaData);

/// Declares `parquet::file::page_index::offset_index::OffsetIndexMetaData`, the
/// page locations of one column chunk.
#[verifier::external_type_specification]
#[verifier::external_body]
pub struct ExOffsetIndexMetaData(parquet::file::page_index::offset_index::OffsetIndexMetaData);

/// The row count that the footer records for each row group, in file order.
pub uninterp spec fn row_group_rows(metadata: ParquetMetaData) -> Seq<i64>;

/// The first row of each page, by row group and leaf column; `None` when the footer
/// was loaded without an offset index.
pub uninterp spec fn indexed_first_rows(metadata: ParquetMetaData) -> Option<Seq<Seq<Seq<i64>>>>;

/// The first row of each page of one column chunk, in page order.
pub uninterp spec fn chunk_first_rows(chunk: OffsetIndexMetaData) -> Seq<i64>;

/// An offset index as plain rows: row group, leaf column, page.
pub open spec fn plain_index(index: Seq<Vec<OffsetIndexMetaData>>) -> Seq<Seq<Seq<i64>>> {
    Seq::new(
        index.len(),
        |rg: int| Seq::new(index[rg]@.len(), |leaf: int| chunk_first_rows(index[rg]@[leaf])),
    )
}

/// `ParquetMetaData::offset_index` hands out the offset index as it was loaded, one
/// entry for each row group and leaf column, or `None` if none was loaded.
pub assume_specification[ ParquetMetaData::offset_index ](metadata: &ParquetMetaData) -> (index: Option<
    &Vec<Vec<OffsetIndexMetaData>>,
>)
    ensures
        match index {
            Some(index) => indexed_first_rows(*metadata) == Some(plain_index(index@)),
            None => indexed_first_rows(*metadata) is None,
        },
;

/// `ParquetMetaData::num_row_groups` counts the row groups of the footer.
pub assume_specification[ ParquetMetaData::num_row_groups ](metadata: &ParquetMetaData) -> (n: usize)
    ensures
        n == row_group_rows(*metadata).len(),
;

/// `RowGroupMetaData::num_rows` of `ParquetMetaData::row_group(i)`: the row count
/// recorded for row group `i`. `row_group` indexes a vector, so `i` has to be the
/// index of a row group.
#[verifier::external_body]
pub(crate) fn row_group_num_rows(metadata: &ParquetMetaData, i: usize) -> (rows: i64)
    requires
        i < row_group_rows(*metadata).len(),
    ensures
        rows == row_group_rows(*metadata)[i as int],
{
    metadata.row_group(i).num_rows()
}

/// `OffsetIndexMetaData::page_locations`: one location for each page of the chunk, of
/// which `first_row_index` is kept.
#[verifier::external_body]
pub(crate) fn page_first_rows(chunk: &OffsetIndexMetaData) -> (rows: Vec<i64>)
    ensures
        rows@ == chunk_first_rows(*chunk),
{
    chunk.page_locations().iter().map(|location| location.first_row_index).collect()
}

/// The plain rows of an index stand where their column chunk stands: row group by row group,
/// and in each leaf column by leaf column.
pub proof fn plain_rows_keep_their_place(index: Seq<Vec<OffsetIndexMetaData>>, rg: int, leaf: int)
    ensures
        plain_index(index).len() == index.len(),
        0 <= rg < index.len() ==> plain_index(index)[rg].len() == index[rg]@.len(),
        0 <= rg < index.len() && 0 <= leaf < index[rg]@.len() ==> plain_index(index)[rg][leaf]
            == chunk_first_rows(index[rg]@[leaf]),
{
}

} // verus!
