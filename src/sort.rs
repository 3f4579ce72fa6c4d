//! Which total order applies to the minimum and maximum statistics of a leaf
//! column, decided from its logical, converted and physical type tags.
use vstd::prelude::*;

use parquet_format_safe::{ConvertedType, LogicalType, Type};

verus! {

/// The ordering rule under which a column's statistics are compared.
#[derive(Clone, Copy, Debug, PartialEq, Eq, Hash, Structural)]
pub enum SortOrder {
    /// Signed comparison of the represented value.
    Signed,
    /// Unsigned comparison: of the value, or byte by byte for byte arrays.
    Unsigned,
    /// No ordering is defined.
    Undefined,
}

/// The order that a logical type annotation prescribes.
pub open spec fn logical_sort_order(t: LogicalType) -> SortOrder {
    match t {
        LogicalType::STRING(_) => SortOrder::Unsigned,
        LogicalType::ENUM(_) => SortOrder::Unsigned,
        LogicalType::JSON(_) => SortOrder::Unsigned,
        LogicalType::BSON(_) => SortOrder::Unsigned,
        LogicalType::UUID(_) => SortOrder::Unsigned,
        LogicalType::INTEGER(i) => if i.is_signed {
            SortOrder::Signed
        } else {
            SortOrder::Unsigned
        },
        LogicalType::DECIMAL(_) => SortOrder::Signed,
        LogicalType::DATE(_) => SortOrder::Signed,
        LogicalType::TIME(_) => SortOrder::Signed,
        LogicalType::TIMESTAMP(_) => SortOrder::Signed,
        LogicalType::MAP(_) => SortOrder::Undefined,
        LogicalType::LIST(_) => SortOrder::Undefined,
        LogicalType::UNKNOWN(_) => SortOrder::Undefined,
    }
}

/// The order that a converted type tag prescribes, by the tag's number:
/// UTF8 0, ENUM 4, DECIMAL 5, DATE 6, TIME_MILLIS 7, TIME_MICROS 8,
/// TIMESTAMP_MILLIS 9, TIMESTAMP_MICROS 10, UINT_8..UINT_64 11..14,
/// INT_8..INT_64 15..18, JSON 19, BSON 20. Group tags (MAP 1,
/// MAP_KEY_VALUE 2, LIST 3), INTERVAL 21 and unknown tags have no order.
pub open spec fn converted_sort_order(t: ConvertedType) -> SortOrder {
    let c = t.0;
    if c == 0 || c == 4 || c == 19 || c == 20 {
        SortOrder::Unsigned
    } else if 11 <= c <= 14 {
        SortOrder::Unsigned
    } else if 5 <= c <= 10 || 15 <= c <= 18 {
        SortOrder::Signed
    } else {
        SortOrder::Undefined
    }
}

/// The order that a physical type prescribes, by the type's number:
/// BOOLEAN 0 (false before true), INT32 1, INT64 2, INT96 3, FLOAT 4,
/// DOUBLE 5, BYTE_ARRAY 6, FIXED_LEN_BYTE_ARRAY 7.
pub open spec fn physical_sort_order(t: Type) -> SortOrder {
    let p = t.0;
    if p == 0 || p == 6 || p == 7 {
        SortOrder::Unsigned
    } else if p == 1 || p == 2 || p == 4 || p == 5 {
        SortOrder::Signed
    } else {
        SortOrder::Undefined
    }
}

/// The order of a column: the logical type decides where present, else the
/// converted type where present, else the physical type.
pub open spec fn sort_order_of(
    logical_type: Option<LogicalType>,
    converted_type: Option<ConvertedType>,
    physical_type: Type,
) -> SortOrder {
    match logical_type {
        Some(l) => logical_sort_order(l),
        None => match converted_type {
            Some(c) => converted_sort_order(c),
            None => physical_sort_order(physical_type),
        },
    }
}

fn logical_order(t: &LogicalType) -> (r: SortOrder)
    ensures
        r == logical_sort_order(*t),
{
    match t {
        LogicalType::STRING(_) | LogicalType::ENUM(_) | LogicalType::JSON(_)
        | LogicalType::BSON(_) | LogicalType::UUID(_) => SortOrder::Unsigned,
        LogicalType::INTEGER(i) => {
            if i.is_signed {
                SortOrder::Signed
            } else {
                SortOrder::Unsigned
            }
        },
        LogicalType::DECIMAL(_) | LogicalType::DATE(_) | LogicalType::TIME(_)
        | LogicalType::TIMESTAMP(_) => SortOrder::Signed,
        LogicalType::MAP(_) | LogicalType::LIST(_) | LogicalType::UNKNOWN(_) => {
            SortOrder::Undefined
        },
    }
}

fn converted_order(t: &ConvertedType) -> (r: SortOrder)
    ensures
        r == converted_sort_order(*t),
{
    match t.0 {
        0 | 4 | 19 | 20 => SortOrder::Unsigned,
        11..=14 => SortOrder::Unsigned,
        5..=10 | 15..=18 => SortOrder::Signed,
        _ => SortOrder::Undefined,
    }
}

fn physical_order(t: &Type) -> (r: SortOrder)
    ensures
        r == physical_sort_order(*t),
{
    match t.0 {
        0 | 6 | 7 => SortOrder::Unsigned,
        1 | 2 | 4 | 5 => SortOrder::Signed,
        _ => SortOrder::Undefined,
    }
}

/// Resolves the order under which the statistics of a leaf column with these
/// type tags are compared. Every combination has an answer; those that the
/// format defines no order for get `Undefined`.
pub fn resolve_sort_order(
    logical_type: &Option<LogicalType>,
    converted_type: &Option<ConvertedType>,
    physical_type: &Type,
) -> (r: SortOrder)
    ensures
        r == sort_order_of(*logical_type, *converted_type, *physical_type),
{
    match logical_type {
        Some(l) => logical_order(l),
        None => match converted_type {
            Some(c) => converted_order(c),
            None => physical_order(physical_type),
        },
    }
}

} // verus!
