use arrow::array::{ArrayRef, Int32Array};
use arrow::record_batch::RecordBatch;
use arrow_schema::{DataType, Field, Schema};
use liquid_scan::page_map::{
    checked_column_page_map, column_page_map, page_spans, ColumnPageMap, MissingRowGroup, PageSpan,
};
use parquet::arrow::arrow_reader::{ArrowReaderMetadata, ArrowReaderOptions};
use parquet::arrow::ArrowWriter;
use parquet::file::metadata::{PageIndexPolicy, ParquetMetaData, ParquetMetaDataBuilder};
use parquet::file::page_index::offset_index::{OffsetIndexMetaData, PageLocation};
use parquet::file::properties::{EnabledStatistics, WriterProperties};
use std::sync::Arc;

/// Writes a single-column file with `total_rows` rows and a small data-page row-count
/// limit so that the writer emits multiple pages, and loads its metadata with the page
/// index.
fn write_and_load(total_rows: usize, page_row_limit: usize) -> (ArrowReaderMetadata, Vec<u8>) {
    let schema = Arc::new(Schema::new(vec![Field::new("v", DataType::Int32, false)]));
    let values: Vec<i32> = (0..total_rows as i32).collect();
    let array: ArrayRef = Arc::new(Int32Array::from(values));
    let batch = RecordBatch::try_new(Arc::clone(&schema), vec![array]).unwrap();

    let props = WriterProperties::builder()
        .set_statistics_enabled(EnabledStatistics::Page)
        .set_data_page_row_count_limit(page_row_limit)
        .set_write_batch_size(page_row_limit)
        .build();

    let mut buf = Vec::new();
    let mut writer = ArrowWriter::try_new(&mut buf, schema, Some(props)).unwrap();
    writer.write(&batch).unwrap();
    writer.close().unwrap();

    let bytes = bytes::Bytes::from(buf.clone());
    let options = ArrowReaderOptions::new().with_page_index_policy(PageIndexPolicy::Optional);
    let metadata = ArrowReaderMetadata::load(&bytes, options).unwrap();
    (metadata, buf)
}

fn span(page_id: u16, first_row: usize, row_count: usize) -> PageSpan {
    PageSpan { page_id, first_row, row_count }
}

#[test]
fn builds_page_spans_that_partition_the_row_group() {
    let total_rows = 10;
    let (metadata, _buf) = write_and_load(total_rows, 4);
    let map = column_page_map(metadata.metadata(), 0, 0).expect("offset index present");

    // Every row belongs to exactly one page, and pages are contiguous.
    assert!(map.page_count() >= 2, "expected multiple pages");
    let spans = map.spans();
    assert_eq!(spans[0].first_row, 0);
    for (i, s) in spans.iter().enumerate() {
        assert_eq!(s.page_id as usize, i);
        if i > 0 {
            assert_eq!(s.first_row, spans[i - 1].end_row(), "pages must be contiguous");
        }
    }
    assert_eq!(spans.last().unwrap().end_row(), total_rows, "pages must cover all rows");
}

#[test]
fn page_of_row_maps_every_row() {
    let total_rows = 10;
    let (metadata, _buf) = write_and_load(total_rows, 4);
    let map = column_page_map(metadata.metadata(), 0, 0).unwrap();

    for row in 0..total_rows {
        let page_id = map.page_of_row(row).expect("row is mapped");
        let span = map.span(page_id).unwrap();
        assert!(row >= span.first_row && row < span.end_row());
    }
    // Out-of-range rows are not mapped.
    assert_eq!(map.page_of_row(total_rows), None);
}

#[test]
fn returns_none_without_page_index() {
    // Load the same file without requesting the page index: the offset index is absent,
    // and the caller must fall back to the batch grid.
    let schema = Arc::new(Schema::new(vec![Field::new("v", DataType::Int32, false)]));
    let array: ArrayRef = Arc::new(Int32Array::from(vec![0, 1, 2, 3]));
    let batch = RecordBatch::try_new(Arc::clone(&schema), vec![array]).unwrap();
    let mut buf = Vec::new();
    let mut writer = ArrowWriter::try_new(&mut buf, schema, None).unwrap();
    writer.write(&batch).unwrap();
    writer.close().unwrap();

    let bytes = bytes::Bytes::from(buf);
    let metadata = ArrowReaderMetadata::load(&bytes, ArrowReaderOptions::new()).unwrap();
    assert!(column_page_map(metadata.metadata(), 0, 0).is_none());
}

#[test]
fn column_page_map_lists_the_pages_of_the_file() {
    let (metadata, _buf) = write_and_load(10, 4);
    let map = column_page_map(metadata.metadata(), 0, 0).unwrap();
    assert_eq!(map.spans(), &[span(0, 0, 4), span(1, 4, 4), span(2, 8, 2)]);
    assert_eq!(map.page_count(), 3);
}

#[test]
fn column_page_map_outside_the_index_is_none() {
    let (metadata, _buf) = write_and_load(10, 4);
    assert!(column_page_map(metadata.metadata(), 0, 1).is_none());
    assert!(column_page_map(metadata.metadata(), 1, 0).is_none());
}

#[test]
fn checked_column_page_map_agrees_where_the_row_group_exists() {
    let (metadata, _buf) = write_and_load(10, 4);
    let map = checked_column_page_map(metadata.metadata(), 0, 0).unwrap().unwrap();
    assert_eq!(map.spans(), &[span(0, 0, 4), span(1, 4, 4), span(2, 8, 2)]);
    assert!(matches!(checked_column_page_map(metadata.metadata(), 0, 1), Ok(None)));
    assert!(matches!(checked_column_page_map(metadata.metadata(), 7, 0), Ok(None)));
}

#[test]
fn checked_column_page_map_reports_an_index_entry_without_its_row_group() {
    let (metadata, _buf) = write_and_load(10, 4);
    let mut index = metadata.metadata().offset_index().unwrap().clone();
    index.push(index[0].clone());
    let footer = metadata.metadata().as_ref().clone();
    let footer = ParquetMetaDataBuilder::new_from_metadata(footer)
        .set_offset_index(Some(index))
        .build();
    assert_eq!(footer.num_row_groups(), 1);
    assert!(matches!(
        checked_column_page_map(&footer, 1, 0),
        Err(MissingRowGroup { row_group_idx: 1 })
    ));
    assert!(checked_column_page_map(&footer, 0, 0).unwrap().is_some());
}

#[test]
fn page_spans_end_at_the_next_page_or_the_row_group() {
    assert_eq!(page_spans(&vec![0, 3, 7], 9), vec![span(0, 0, 3), span(1, 3, 4), span(2, 7, 2)]);
    assert_eq!(page_spans(&vec![0], 0), vec![span(0, 0, 0)]);
    assert_eq!(page_spans(&vec![], 5), vec![]);
}

#[test]
fn page_spans_never_count_backwards() {
    assert_eq!(page_spans(&vec![0, 5, 3], 10), vec![span(0, 0, 5), span(1, 5, 0), span(2, 3, 7)]);
    assert_eq!(page_spans(&vec![0, 8], 6), vec![span(0, 0, 8), span(1, 8, 0)]);
}

/// A footer whose offset index lists `pages` pages of one row each.
fn footer_with_pages(pages: usize) -> ParquetMetaData {
    let (metadata, _buf) = write_and_load(10, 4);
    let locations: Vec<PageLocation> = (0..pages as i64)
        .map(|i| PageLocation { offset: i, compressed_page_size: 1, first_row_index: i })
        .collect();
    let chunk =
        OffsetIndexMetaData { page_locations: locations, unencoded_byte_array_data_bytes: None };
    ParquetMetaDataBuilder::new_from_metadata(metadata.metadata().as_ref().clone())
        .set_offset_index(Some(vec![vec![chunk]]))
        .build()
}

#[test]
fn as_many_pages_as_page_ids_carry_their_positions() {
    let footer = footer_with_pages(65_536);
    let map = column_page_map(&footer, 0, 0).unwrap();
    assert_eq!(map.page_count(), 65_536);
    for (i, s) in map.spans().iter().enumerate() {
        assert_eq!(s.page_id as usize, i);
    }
    assert!(checked_column_page_map(&footer, 0, 0).unwrap().is_some());
}

#[test]
fn a_column_of_more_pages_than_page_ids_gets_no_map() {
    let footer = footer_with_pages(65_537);
    assert!(column_page_map(&footer, 0, 0).is_none());
    assert!(matches!(checked_column_page_map(&footer, 0, 0), Ok(None)));
}

#[test]
fn ordered_pages_are_contiguous_from_any_first_row() {
    let map = ColumnPageMap::from_spans(page_spans(&vec![3, 5, 5], 9));
    assert_eq!(map.spans(), &[span(0, 3, 2), span(1, 5, 0), span(2, 5, 4)]);
    assert_eq!(map.page_of_row(2), None);
    assert_eq!(map.page_of_row(3), Some(0));
    assert_eq!(map.page_of_row(5), Some(2));
    assert_eq!(map.page_of_row(8), Some(2));
    assert_eq!(map.page_of_row(9), None);
}

#[test]
fn lookups_respect_page_boundaries() {
    let map = ColumnPageMap::from_spans(vec![span(0, 0, 4), span(1, 4, 0), span(2, 4, 3)]);
    assert_eq!(map.page_of_row(0), Some(0));
    assert_eq!(map.page_of_row(3), Some(0));
    assert_eq!(map.page_of_row(4), Some(2));
    assert_eq!(map.page_of_row(6), Some(2));
    assert_eq!(map.page_of_row(7), None);
    assert_eq!(map.span(1), Some(span(1, 4, 0)));
    assert_eq!(map.span(3), None);
}

#[test]
fn lookups_find_no_page_in_a_gap() {
    let map = ColumnPageMap::from_spans(vec![span(0, 2, 2), span(1, 6, 2)]);
    assert_eq!(map.page_of_row(1), None);
    assert_eq!(map.page_of_row(2), Some(0));
    assert_eq!(map.page_of_row(5), None);
    assert_eq!(map.page_of_row(7), Some(1));
    assert_eq!(map.page_of_row(usize::MAX), None);
}

#[test]
fn default_map_has_no_pages() {
    let map = ColumnPageMap::default();
    assert_eq!(map.page_count(), 0);
    assert_eq!(map.page_of_row(0), None);
    assert_eq!(map.span(0), None);
}

#[test]
fn end_row_is_exclusive() {
    assert_eq!(span(3, 40, 2).end_row(), 42);
}

#[test]
fn a_clone_holds_the_same_pages() {
    let map = ColumnPageMap::from_spans(vec![span(0, 0, 4), span(1, 4, 3)]);
    assert_eq!(map.clone().spans(), map.spans());
}
