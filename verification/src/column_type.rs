//! The logical type of a column, as far as cache decisions look at it.

use vstd::prelude::*;

verus! {

/// The logical type of a column: one variant for each of Arrow's, without the parameters
/// (units, precision, child fields) that no decision depends on.
#[derive(Debug, Clone, Copy, PartialEq, Eq, Structural)]
pub enum ColumnType {
    Null,
    Boolean,
    Int8,
    Int16,
    Int32,
    Int64,
    UInt8,
    UInt16,
    UInt32,
    UInt64,
    Float16,
    Float32,
    Float64,
    Timestamp,
    Date32,
    Date64,
    Time32,
    Time64,
    Duration,
    Interval,
    Binary,
    FixedSizeBinary,
    LargeBinary,
    BinaryView,
    Utf8,
    LargeUtf8,
    Utf8View,
    List,
    ListView,
    FixedSizeList,
    LargeList,
    LargeListView,
    StructFields,
    Union,
    Dictionary,
    Decimal32,
    Decimal64,
    Decimal128,
    Decimal256,
    MapEntries,
    RunEndEncoded,
}

impl ColumnType {
    /// The integer, float and decimal types.
    pub open spec fn numeric(self) -> bool {
        ||| self is Int8
        ||| self is Int16
        ||| self is Int32
        ||| self is Int64
        ||| self is UInt8
        ||| self is UInt16
        ||| self is UInt32
        ||| self is UInt64
        ||| self is Float16
        ||| self is Float32
        ||| self is Float64
        ||| self is Decimal32
        ||| self is Decimal64
        ||| self is Decimal128
        ||| self is Decimal256
    }

    /// The types that the cache serves: numeric, date, timestamp and boolean.
    pub open spec fn cacheable(self) -> bool {
        ||| self.numeric()
        ||| self is Date32
        ||| self is Date64
        ||| self is Timestamp
        ||| self is Boolean
    }

    /// Whether this is an integer, float or decimal type.
    pub fn is_numeric(&self) -> (b: bool)
        ensures
            b == self.numeric(),
            b == match self {
                ColumnType::Int8
                | ColumnType::Int16
                | ColumnType::Int32
                | ColumnType::Int64
                | ColumnType::UInt8
                | ColumnType::UInt16
                | ColumnType::UInt32
                | ColumnType::UInt64
                | ColumnType::Float16
                | ColumnType::Float32
                | ColumnType::Float64
                | ColumnType::Decimal32
                | ColumnType::Decimal64
                | ColumnType::Decimal128
                | ColumnType::Decimal256 => true,
                _ => false,
            },
    {
        matches!(
            self,
            ColumnType::UInt8
                | ColumnType::UInt16
                | ColumnType::UInt32
                | ColumnType::UInt64
                | ColumnType::Int8
                | ColumnType::Int16
                | ColumnType::Int32
                | ColumnType::Int64
                | ColumnType::Float16
                | ColumnType::Float32
                | ColumnType::Float64
                | ColumnType::Decimal32
                | ColumnType::Decimal64
                | ColumnType::Decimal128
                | ColumnType::Decimal256
        )
    }

    /// Whether the cache serves columns of this type.
    pub fn is_cacheable(&self) -> (b: bool)
        ensures
            b == self.cacheable(),
            b == match self {
                ColumnType::Null
                | ColumnType::Time32
                | ColumnType::Time64
                | ColumnType::Duration
                | ColumnType::Interval
                | ColumnType::Binary
                | ColumnType::FixedSizeBinary
                | ColumnType::LargeBinary
                | ColumnType::BinaryView
                | ColumnType::Utf8
                | ColumnType::LargeUtf8
                | ColumnType::Utf8View
                | ColumnType::List
                | ColumnType::ListView
                | ColumnType::FixedSizeList
                | ColumnType::LargeList
                | ColumnType::LargeListView
                | ColumnType::StructFields
                | ColumnType::Union
                | ColumnType::Dictionary
                | ColumnType::MapEntries
                | ColumnType::RunEndEncoded => false,
                _ => true,
            },
    {
        self.is_numeric() || matches!(
            self,
            ColumnType::Date32 | ColumnType::Date64 | ColumnType::Timestamp | ColumnType::Boolean
        )
    }
}

impl ColumnType {
    /// Text, binary, nested, time-of-day and span types are not cached, nor is the null type;
    /// all others are.
    pub proof fn only_these_types_are_not_cached(self)
        ensures
            !self.cacheable() <==> ({
                ||| self is Null
                ||| self is Time32
                ||| self is Time64
                ||| self is Duration
                ||| self is Interval
                ||| self is Binary
                ||| self is FixedSizeBinary
                ||| self is LargeBinary
                ||| self is BinaryView
                ||| self is Utf8
                ||| self is LargeUtf8
                ||| self is Utf8View
                ||| self is List
                ||| self is ListView
                ||| self is FixedSizeList
                ||| self is LargeList
                ||| self is LargeListView
                ||| self is StructFields
                ||| self is Union
                ||| self is Dictionary
                ||| self is MapEntries
                ||| self is RunEndEncoded
            }),
    {
    }

    /// The numeric types are the cached ones that are not a date, a timestamp or a truth value.
    pub proof fn numeric_types_are_cached(self)
        ensures
            self.numeric() <==> self.cacheable() && !(self is Boolean || self is Date32
                || self is Date64 || self is Timestamp),
    {
    }
}

} // verus!
