use arrow_schema::{DataType, Field, Fields, IntervalUnit, TimeUnit, UnionFields, UnionMode};
use liquid_scan::column_type::ColumnType;
use liquid_scan::engagement::{
    decision_message, engaged_message, engagement, has_numeric_predicate,
    is_all_numeric_projection, plan_source, read_settings, Engagement, ScanColumns, ScanKind,
    SourcePlan,
};
use liquid_scan::logger::LogLevel;
use std::sync::Arc;

/// Arrow's types beside the column types that stand for them.
fn all_types() -> Vec<(DataType, ColumnType)> {
    let item = Arc::new(Field::new("item", DataType::Int32, true));
    vec![
        (DataType::Null, ColumnType::Null),
        (DataType::Boolean, ColumnType::Boolean),
        (DataType::Int8, ColumnType::Int8),
        (DataType::Int16, ColumnType::Int16),
        (DataType::Int32, ColumnType::Int32),
        (DataType::Int64, ColumnType::Int64),
        (DataType::UInt8, ColumnType::UInt8),
        (DataType::UInt16, ColumnType::UInt16),
        (DataType::UInt32, ColumnType::UInt32),
        (DataType::UInt64, ColumnType::UInt64),
        (DataType::Float16, ColumnType::Float16),
        (DataType::Float32, ColumnType::Float32),
        (DataType::Float64, ColumnType::Float64),
        (DataType::Timestamp(TimeUnit::Second, None), ColumnType::Timestamp),
        (DataType::Date32, ColumnType::Date32),
        (DataType::Date64, ColumnType::Date64),
        (DataType::Time32(TimeUnit::Second), ColumnType::Time32),
        (DataType::Time64(TimeUnit::Nanosecond), ColumnType::Time64),
        (DataType::Duration(TimeUnit::Second), ColumnType::Duration),
        (DataType::Interval(IntervalUnit::DayTime), ColumnType::Interval),
        (DataType::Binary, ColumnType::Binary),
        (DataType::FixedSizeBinary(4), ColumnType::FixedSizeBinary),
        (DataType::LargeBinary, ColumnType::LargeBinary),
        (DataType::BinaryView, ColumnType::BinaryView),
        (DataType::Utf8, ColumnType::Utf8),
        (DataType::LargeUtf8, ColumnType::LargeUtf8),
        (DataType::Utf8View, ColumnType::Utf8View),
        (DataType::List(item.clone()), ColumnType::List),
        (DataType::ListView(item.clone()), ColumnType::ListView),
        (DataType::FixedSizeList(item.clone(), 2), ColumnType::FixedSizeList),
        (DataType::LargeList(item.clone()), ColumnType::LargeList),
        (DataType::LargeListView(item.clone()), ColumnType::LargeListView),
        (DataType::Struct(Fields::empty()), ColumnType::StructFields),
        (DataType::Union(UnionFields::empty(), UnionMode::Sparse), ColumnType::Union),
        (
            DataType::Dictionary(Box::new(DataType::Int32), Box::new(DataType::Utf8)),
            ColumnType::Dictionary,
        ),
        (DataType::Decimal32(5, 1), ColumnType::Decimal32),
        (DataType::Decimal64(5, 1), ColumnType::Decimal64),
        (DataType::Decimal128(5, 1), ColumnType::Decimal128),
        (DataType::Decimal256(5, 1), ColumnType::Decimal256),
        (DataType::Map(item.clone(), false), ColumnType::MapEntries),
        (DataType::RunEndEncoded(item.clone(), item), ColumnType::RunEndEncoded),
    ]
}

#[test]
fn numeric_types_are_those_of_arrow() {
    for (arrow, column) in all_types() {
        assert_eq!(column.is_numeric(), arrow.is_numeric(), "{:?}", arrow);
    }
}

#[test]
fn cacheable_types_are_numeric_date_timestamp_and_boolean() {
    for (arrow, column) in all_types() {
        let expected = arrow.is_numeric()
            || matches!(
                arrow,
                DataType::Date32 | DataType::Date64 | DataType::Timestamp(_, _) | DataType::Boolean
            );
        assert_eq!(column.is_cacheable(), expected, "{:?}", arrow);
    }
}

/// A schema of an integer, a text and a timestamp column.
fn schema() -> Vec<ColumnType> {
    vec![ColumnType::Int64, ColumnType::Utf8, ColumnType::Timestamp]
}

fn columns(predicate: Option<Vec<usize>>, projection: Option<Vec<usize>>) -> ScanColumns {
    ScanColumns { schema: schema(), predicate, projection }
}

fn selection(selective: bool, push_predicate: bool) -> ScanKind {
    ScanKind::RowSelection { selective, push_predicate }
}

#[test]
fn a_predicate_is_numeric_by_any_of_its_columns() {
    assert!(has_numeric_predicate(&schema(), &Some(vec![1, 2])));
    assert!(!has_numeric_predicate(&schema(), &Some(vec![1])));
    assert!(!has_numeric_predicate(&schema(), &Some(vec![])));
    assert!(!has_numeric_predicate(&schema(), &Some(vec![3])));
    assert!(!has_numeric_predicate(&schema(), &None));
}

#[test]
fn a_projection_is_numeric_by_all_of_its_columns() {
    assert!(is_all_numeric_projection(&schema(), &Some(vec![0, 2])));
    assert!(!is_all_numeric_projection(&schema(), &Some(vec![0, 1])));
    assert!(!is_all_numeric_projection(&schema(), &Some(vec![0, 3])));
    assert!(!is_all_numeric_projection(&schema(), &None));
}

#[test]
fn the_empty_projection_is_all_numeric() {
    assert!(is_all_numeric_projection(&schema(), &Some(vec![])));
    assert!(is_all_numeric_projection(&vec![], &Some(vec![])));
}

#[test]
fn a_selective_numeric_predicate_engages_the_cache() {
    let columns = columns(Some(vec![0]), Some(vec![0, 1]));
    assert_eq!(
        engagement(true, selection(true, false), &columns),
        Engagement { numeric_predicate: true, all_numeric_projection: false, use_cache: true }
    );
    assert!(!engagement(true, selection(false, false), &columns).use_cache);
}

#[test]
fn a_selective_text_predicate_does_not_engage_the_cache() {
    let columns = columns(Some(vec![1]), Some(vec![0, 1]));
    assert_eq!(
        engagement(true, selection(true, true), &columns),
        Engagement { numeric_predicate: false, all_numeric_projection: false, use_cache: false }
    );
}

#[test]
fn an_all_numeric_projection_engages_the_cache_at_any_selectivity() {
    let columns = columns(None, Some(vec![0, 2]));
    assert!(engagement(true, selection(false, false), &columns).use_cache);
    assert!(engagement(true, selection(true, false), &columns).use_cache);
}

#[test]
fn a_disabled_cache_is_never_engaged() {
    let columns = columns(Some(vec![0]), Some(vec![0]));
    let engaged = engagement(false, selection(true, true), &columns);
    assert_eq!(
        engaged,
        Engagement { numeric_predicate: true, all_numeric_projection: true, use_cache: false }
    );
}

#[test]
fn a_full_scan_bypasses_the_cache_and_keeps_the_predicate_out_of_decode() {
    let columns = columns(Some(vec![0]), Some(vec![0]));
    let engaged = engagement(true, ScanKind::FullScan, &columns);
    assert!(engaged.all_numeric_projection);
    assert!(!engaged.use_cache);
    assert_eq!(
        plan_source(engaged.use_cache, true, ScanKind::FullScan, true),
        SourcePlan { through_cache: false, with_predicate: false }
    );
}

#[test]
fn the_cache_always_gets_the_predicate() {
    assert_eq!(
        plan_source(true, true, selection(true, false), true),
        SourcePlan { through_cache: true, with_predicate: true }
    );
    assert_eq!(
        plan_source(true, true, selection(false, true), false),
        SourcePlan { through_cache: true, with_predicate: false }
    );
}

#[test]
fn without_a_cache_the_predicate_is_pushed_when_asked_for() {
    for (use_cache, cache_present) in [(true, false), (false, true), (false, false)] {
        assert_eq!(
            plan_source(use_cache, cache_present, selection(true, true), true),
            SourcePlan { through_cache: false, with_predicate: true }
        );
        assert_eq!(
            plan_source(use_cache, cache_present, selection(true, false), true),
            SourcePlan { through_cache: false, with_predicate: false }
        );
        assert_eq!(
            plan_source(use_cache, cache_present, selection(true, true), false),
            SourcePlan { through_cache: false, with_predicate: false }
        );
    }
}

#[test]
fn the_order_of_columns_does_not_matter() {
    assert_eq!(
        has_numeric_predicate(&schema(), &Some(vec![1, 0])),
        has_numeric_predicate(&schema(), &Some(vec![0, 1, 1]))
    );
    assert_eq!(
        is_all_numeric_projection(&schema(), &Some(vec![2, 1])),
        is_all_numeric_projection(&schema(), &Some(vec![1, 2]))
    );
}

#[test]
fn a_full_scan_stays_safe_whatever_was_decided_about_the_cache() {
    for use_cache in [false, true] {
        for cache_present in [false, true] {
            assert_eq!(
                plan_source(use_cache, cache_present, ScanKind::FullScan, true),
                SourcePlan { through_cache: false, with_predicate: false }
            );
        }
    }
}

#[test]
fn a_scan_reads_its_projection_without_the_page_index() {
    for projection in [None, Some(vec![]), Some(vec![2, 0])] {
        let settings = read_settings(&columns(None, projection.clone()));
        assert!(!settings.page_index);
        assert_eq!(settings.projection, projection);
    }
}

#[test]
fn a_decision_is_reported() {
    let engaged =
        Engagement { numeric_predicate: true, all_numeric_projection: false, use_cache: true };
    let message = decision_message(true, &format!("{:.3}", 0.25), &engaged, "data/a.parquet");
    assert_eq!(message.level, LogLevel::Info);
    assert_eq!(
        message.text,
        "[parquet_bridge] gate: lc_enabled=true, selectivity=0.250, numeric_pred=true, \
         all_numeric_proj=false, use_lc=true, file=data/a.parquet"
    );
}

#[test]
fn only_a_scan_through_the_cache_is_reported_as_engaged() {
    let engaged =
        Engagement { numeric_predicate: false, all_numeric_projection: true, use_cache: true };
    let through = SourcePlan { through_cache: true, with_predicate: false };
    let message = engaged_message(&through, "1.000", &engaged).unwrap();
    assert_eq!(message.level, LogLevel::Info);
    assert_eq!(message.text, "[parquet_bridge] LC ENGAGED: selectivity=1.000, all_numeric=true");
    let direct = SourcePlan { through_cache: false, with_predicate: false };
    assert!(engaged_message(&direct, "1.000", &engaged).is_none());
}
