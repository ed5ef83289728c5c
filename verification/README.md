# liquid_scan

Scan planning for a columnar cache in front of Parquet files, written in Verus: each
function of the library states in its contract what it returns, and Verus proves it of all
but the calls into other crates. Those contracts are trusted:

- `access_plan`: `none_plan` and `set_access` call `ParquetAccessPlan::new_none` and
  `ParquetAccessPlan::set`.
- `parquet_index`: `row_group_num_rows` and `page_first_rows` call
  `ParquetMetaData::row_group`, `RowGroupMetaData::num_rows` and
  `OffsetIndexMetaData::page_locations`. `ParquetMetaData::offset_index` and
  `ParquetMetaData::num_row_groups` have assumed specifications.

The modules:

- `page_map`: physical page boundaries of a column within a row group, and lookups by row.
- `parquet_index`: what page maps and access plans read out of a Parquet footer.
- `access_plan`: access plans that read a single row group.
- `column_type`, `engagement`: when a scan goes through the cache, and where its predicate
  is applied.
- `byte_ranges`: how many bytes a read is booked with.
- `metadata_load`: the steps in which a footer is loaded, and what ends them.
- `liquid_cache`: set-up, reset and reports of the cache runtime.
- `logger`: what the native logger hands to the host.
- `text`: text of numbers and messages.

`app/` is the plugin around the library: object stores, files, streams, the host callback.
The cache engine itself comes from the program that embeds the plugin, which implements two
traits of `app/liquid_cache.rs`.
