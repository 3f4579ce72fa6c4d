use parquet_format_safe::{
    BsonType, ColumnChunk, ConvertedType, DecimalType, FieldRepetitionType, IntType, KeyValue,
    ListType, LogicalType, MapType, NullType, RowGroup, SchemaElement, StringType, Type,
};
use parquet_meta::column_order::{parse_column_orders, ColumnOrder, ColumnOrderTag};
use parquet_meta::error::Error;
use parquet_meta::file_metadata::{FileMetaData, Footer};
use parquet_meta::row_group::RowGroupMetaData;
use parquet_meta::schema::SchemaDescriptor;
use parquet_meta::sort::{resolve_sort_order, SortOrder};

fn group(name: &str, children: i32) -> SchemaElement {
    SchemaElement::new(
        None,
        None,
        None,
        name.to_string(),
        children,
        None,
        None,
        None,
        None,
        None,
    )
}

fn primitive(
    name: &str,
    physical: Type,
    converted: Option<ConvertedType>,
    logical: Option<LogicalType>,
) -> SchemaElement {
    SchemaElement::new(
        physical,
        None,
        FieldRepetitionType::OPTIONAL,
        name.to_string(),
        None,
        converted,
        None,
        None,
        None,
        logical,
    )
}

/// A root with an INT32 column and a UTF8 byte-array column.
fn two_column_schema() -> Vec<SchemaElement> {
    vec![
        group("schema", 2),
        primitive("id", Type::INT32, None, None),
        primitive(
            "name",
            Type::BYTE_ARRAY,
            Some(ConvertedType::UTF8),
            Some(LogicalType::STRING(StringType::new())),
        ),
    ]
}

/// A root with a single INT32 column.
fn one_column_schema() -> Vec<SchemaElement> {
    vec![group("schema", 1), primitive("id", Type::INT32, None, None)]
}

fn chunk(offset: i64) -> ColumnChunk {
    ColumnChunk::new(None, offset, None, None, None, None, None, None, None)
}

fn row_group(num_columns: usize, num_rows: i64) -> RowGroup {
    let columns = (0..num_columns).map(|i| chunk(4 + i as i64)).collect();
    RowGroup::new(columns, 100, num_rows, None, Some(4), Some(80), Some(0))
}

fn footer(
    schema: Vec<SchemaElement>,
    num_rows: i64,
    row_groups: Vec<RowGroup>,
    column_orders: Option<Vec<ColumnOrderTag>>,
) -> Footer {
    Footer {
        version: 1,
        schema,
        num_rows,
        row_groups,
        key_value_metadata: None,
        created_by: Some("parquet-mr version 1.8.0".to_string()),
        column_orders,
    }
}

fn order(logical: Option<LogicalType>, converted: Option<ConvertedType>, physical: Type) -> SortOrder {
    resolve_sort_order(&logical, &converted, &physical)
}

#[test]
fn sort_order_physical_types() {
    assert_eq!(order(None, None, Type::BOOLEAN), SortOrder::Unsigned);
    assert_eq!(order(None, None, Type::INT32), SortOrder::Signed);
    assert_eq!(order(None, None, Type::INT64), SortOrder::Signed);
    assert_eq!(order(None, None, Type::INT96), SortOrder::Undefined);
    assert_eq!(order(None, None, Type::FLOAT), SortOrder::Signed);
    assert_eq!(order(None, None, Type::DOUBLE), SortOrder::Signed);
    assert_eq!(order(None, None, Type::BYTE_ARRAY), SortOrder::Unsigned);
    assert_eq!(order(None, None, Type::FIXED_LEN_BYTE_ARRAY), SortOrder::Unsigned);
    assert_eq!(order(None, None, Type(42)), SortOrder::Undefined);
}

#[test]
fn sort_order_converted_types() {
    let c = |t: ConvertedType| order(None, Some(t), Type::INT96);
    assert_eq!(c(ConvertedType::UTF8), SortOrder::Unsigned);
    assert_eq!(c(ConvertedType::ENUM), SortOrder::Unsigned);
    assert_eq!(c(ConvertedType::JSON), SortOrder::Unsigned);
    assert_eq!(c(ConvertedType::BSON), SortOrder::Unsigned);
    assert_eq!(c(ConvertedType::UINT_8), SortOrder::Unsigned);
    assert_eq!(c(ConvertedType::UINT_64), SortOrder::Unsigned);
    assert_eq!(c(ConvertedType::INT_8), SortOrder::Signed);
    assert_eq!(c(ConvertedType::INT_64), SortOrder::Signed);
    assert_eq!(c(ConvertedType::DECIMAL), SortOrder::Signed);
    assert_eq!(c(ConvertedType::DATE), SortOrder::Signed);
    assert_eq!(c(ConvertedType::TIME_MILLIS), SortOrder::Signed);
    assert_eq!(c(ConvertedType::TIMESTAMP_MICROS), SortOrder::Signed);
    assert_eq!(c(ConvertedType::INTERVAL), SortOrder::Undefined);
    assert_eq!(c(ConvertedType::MAP), SortOrder::Undefined);
    assert_eq!(c(ConvertedType::LIST), SortOrder::Undefined);
    assert_eq!(c(ConvertedType(77)), SortOrder::Undefined);
}

#[test]
fn sort_order_logical_types() {
    let l = |t: LogicalType| order(Some(t), None, Type::INT96);
    assert_eq!(l(LogicalType::STRING(StringType::new())), SortOrder::Unsigned);
    assert_eq!(l(LogicalType::BSON(BsonType::new())), SortOrder::Unsigned);
    assert_eq!(l(LogicalType::INTEGER(IntType::new(32, true))), SortOrder::Signed);
    assert_eq!(l(LogicalType::INTEGER(IntType::new(8, false))), SortOrder::Unsigned);
    assert_eq!(l(LogicalType::DECIMAL(DecimalType::new(2, 10))), SortOrder::Signed);
    assert_eq!(l(LogicalType::UNKNOWN(NullType::new())), SortOrder::Undefined);
    assert_eq!(l(LogicalType::MAP(MapType::new())), SortOrder::Undefined);
    assert_eq!(l(LogicalType::LIST(ListType::new())), SortOrder::Undefined);
}

#[test]
fn sort_order_precedence() {
    // the logical type decides over the converted type, which decides over the physical one
    let unsigned_int = Some(LogicalType::INTEGER(IntType::new(32, false)));
    assert_eq!(
        order(unsigned_int, Some(ConvertedType::INT_32), Type::INT32),
        SortOrder::Unsigned
    );
    assert_eq!(order(None, Some(ConvertedType::UINT_32), Type::INT32), SortOrder::Unsigned);
    assert_eq!(order(None, Some(ConvertedType::INTERVAL), Type::INT32), SortOrder::Undefined);
}

#[test]
fn schema_resolves_leaves_in_order() {
    let fields = vec![
        group("schema", 2),
        group("nested", 1),
        primitive("a", Type::INT64, None, None),
        primitive("b", Type::DOUBLE, None, None),
    ];
    let s = SchemaDescriptor::try_from_thrift(fields.clone()).unwrap();
    assert_eq!(s.num_columns(), 2);
    assert_eq!(s.column(0).name, "a");
    assert_eq!(s.column(1).name, "b");
    assert_eq!(s.into_thrift(), fields);
}

#[test]
fn schema_errors() {
    assert_eq!(SchemaDescriptor::try_from_thrift(vec![]).err(), Some(Error::InvalidSchema));
    let root_is_leaf = vec![primitive("a", Type::INT32, None, None)];
    assert_eq!(SchemaDescriptor::try_from_thrift(root_is_leaf).err(), Some(Error::InvalidSchema));
    let mut untyped = primitive("a", Type::INT32, None, None);
    untyped.type_ = None;
    let leaf_without_type = vec![group("schema", 1), untyped];
    assert_eq!(
        SchemaDescriptor::try_from_thrift(leaf_without_type).err(),
        Some(Error::InvalidSchema)
    );
}

#[test]
fn schema_children_counts_must_form_one_tree() {
    let a = || primitive("a", Type::INT32, None, None);
    let b = || primitive("b", Type::INT32, None, None);
    let too_few_children = vec![group("schema", 3), a(), b()];
    assert_eq!(SchemaDescriptor::try_from_thrift(too_few_children).err(), Some(Error::InvalidSchema));
    let trailing = vec![group("schema", 1), a(), b()];
    assert_eq!(SchemaDescriptor::try_from_thrift(trailing).err(), Some(Error::InvalidSchema));
    let negative = vec![group("schema", 1), group("g", -1), a()];
    assert_eq!(SchemaDescriptor::try_from_thrift(negative).err(), Some(Error::InvalidSchema));
    let nested = vec![group("schema", 2), group("g", 1), a(), b()];
    assert_eq!(SchemaDescriptor::try_from_thrift(nested).unwrap().num_columns(), 2);
}

#[test]
fn schema_with_no_leaves() {
    let s = SchemaDescriptor::try_from_thrift(vec![group("schema", 0)]).unwrap();
    assert_eq!(s.num_columns(), 0);
}

#[test]
fn row_group_conversion() {
    let schema = SchemaDescriptor::try_from_thrift(two_column_schema()).unwrap();
    let g = RowGroupMetaData::try_from_thrift(&schema, row_group(2, 7)).unwrap();
    assert_eq!(g.num_rows, 7);
    assert_eq!(g.total_byte_size, 100);
    assert_eq!(g.columns.len(), 2);
    assert_eq!(g.into_thrift(), row_group(2, 7));
}

#[test]
fn row_group_errors() {
    let schema = SchemaDescriptor::try_from_thrift(two_column_schema()).unwrap();
    let r = RowGroupMetaData::try_from_thrift(&schema, row_group(3, 7));
    assert_eq!(r.err().map(|e| e), Some(Error::RowGroupColumnCount));
    let r = RowGroupMetaData::try_from_thrift(&schema, row_group(2, -5));
    assert_eq!(r.err(), Some(Error::RowGroupOutOfRange));
    let mut g = row_group(2, 5);
    g.total_byte_size = -1;
    assert_eq!(RowGroupMetaData::try_from_thrift(&schema, g).err(), Some(Error::RowGroupOutOfRange));
}

#[test]
fn column_orders_align_with_leaves() {
    let schema = SchemaDescriptor::try_from_thrift(two_column_schema()).unwrap();
    let tags = vec![ColumnOrderTag::TypeDefined, ColumnOrderTag::TypeDefined];
    let orders = parse_column_orders(&tags, &schema);
    assert_eq!(
        orders,
        vec![
            ColumnOrder::TypeDefinedOrder(SortOrder::Signed),
            ColumnOrder::TypeDefinedOrder(SortOrder::Unsigned)
        ]
    );
}

#[test]
fn column_orders_stop_at_the_shorter() {
    let schema = SchemaDescriptor::try_from_thrift(two_column_schema()).unwrap();
    let orders = parse_column_orders(&[ColumnOrderTag::TypeDefined], &schema);
    assert_eq!(orders, vec![ColumnOrder::TypeDefinedOrder(SortOrder::Signed)]);
    let one = SchemaDescriptor::try_from_thrift(one_column_schema()).unwrap();
    let tags = vec![ColumnOrderTag::TypeDefined; 3];
    assert_eq!(parse_column_orders(&tags, &one).len(), 1);
    assert!(parse_column_orders(&[], &schema).is_empty());
}

#[test]
fn footer_with_negative_row_count_fails() {
    let r = FileMetaData::try_from_thrift(footer(two_column_schema(), -1, vec![], None));
    assert_eq!(r.err(), Some(Error::NumRowsOutOfRange));
}

#[test]
fn footer_with_zero_rows() {
    let m = FileMetaData::try_from_thrift(footer(two_column_schema(), 0, vec![], None)).unwrap();
    assert_eq!(m.num_rows, 0);
    assert!(m.row_groups.is_empty());
}

#[test]
fn footer_errors_come_in_order() {
    let r = FileMetaData::try_from_thrift(footer(vec![], -1, vec![row_group(5, -1)], None));
    assert_eq!(r.err(), Some(Error::InvalidSchema));
    let rgs = vec![row_group(2, 1), row_group(2, -1), row_group(3, 1)];
    let r = FileMetaData::try_from_thrift(footer(two_column_schema(), -1, rgs, None));
    assert_eq!(r.err(), Some(Error::RowGroupOutOfRange));
    let rgs = vec![row_group(2, 1), row_group(3, 1), row_group(2, -1)];
    let r = FileMetaData::try_from_thrift(footer(two_column_schema(), 2, rgs, None));
    assert_eq!(r.err(), Some(Error::RowGroupColumnCount));
}

#[test]
fn column_order_undefined_without_tags() {
    let single = one_column_schema();
    let m = FileMetaData::try_from_thrift(footer(single, 3, vec![row_group(1, 3)], None)).unwrap();
    assert!(m.column_orders.is_none());
    assert_eq!(m.column_order(0), ColumnOrder::Undefined);
    let m = FileMetaData::try_from_thrift(footer(two_column_schema(), 3, vec![], None)).unwrap();
    assert_eq!(m.column_order(0), ColumnOrder::Undefined);
    assert_eq!(m.column_order(1), ColumnOrder::Undefined);
}

#[test]
fn column_order_from_tags() {
    let tags = Some(vec![ColumnOrderTag::TypeDefined, ColumnOrderTag::TypeDefined]);
    let m = FileMetaData::try_from_thrift(footer(two_column_schema(), 3, vec![], tags)).unwrap();
    assert_eq!(m.column_order(0), ColumnOrder::TypeDefinedOrder(SortOrder::Signed));
    assert_eq!(m.column_order(1), ColumnOrder::TypeDefinedOrder(SortOrder::Unsigned));
}

#[test]
fn key_value_pass_through() {
    let kv = vec![
        KeyValue { key: "a".to_string(), value: Some("1".to_string()) },
        KeyValue { key: "b".to_string(), value: None },
    ];
    let mut f = footer(two_column_schema(), 0, vec![], None);
    f.key_value_metadata = Some(kv.clone());
    let m = FileMetaData::try_from_thrift(f).unwrap();
    assert_eq!(m.key_value_metadata(), &Some(kv.clone()));
    let back = m.into_thrift();
    assert_eq!(back.key_value_metadata, Some(kv));
}

#[test]
fn round_trip_without_column_orders() {
    let rgs = vec![row_group(2, 3), row_group(2, 4)];
    let mut f = footer(two_column_schema(), 7, rgs.clone(), None);
    f.key_value_metadata = Some(vec![KeyValue { key: "k".to_string(), value: None }]);
    let m = FileMetaData::try_from_thrift(f).unwrap();
    assert_eq!(m.version, 1);
    assert_eq!(m.num_rows, 7);
    assert_eq!(m.row_groups.len(), 2);
    assert_eq!(m.schema().num_columns(), 2);
    let w = m.clone().into_thrift();
    assert_eq!(w.version, 1);
    assert_eq!(w.num_rows, 7);
    assert_eq!(w.row_groups, rgs);
    assert_eq!(w.schema, two_column_schema());
    assert_eq!(w.created_by, Some("parquet-mr version 1.8.0".to_string()));
    assert!(w.column_orders.is_none());
    let m2 = FileMetaData::try_from_thrift(w).unwrap();
    assert_eq!(m2.num_rows, m.num_rows);
    assert_eq!(m2.version, m.version);
    assert_eq!(m2.created_by, m.created_by);
    assert_eq!(m2.key_value_metadata, m.key_value_metadata);
    assert_eq!(m2.schema().fields(), m.schema().fields());
    assert!(m2.column_orders.is_none());
}

#[test]
fn write_drops_column_orders() {
    let tags = Some(vec![ColumnOrderTag::TypeDefined, ColumnOrderTag::TypeDefined]);
    let m = FileMetaData::try_from_thrift(footer(two_column_schema(), 3, vec![], tags)).unwrap();
    assert!(m.column_orders.is_some());
    assert!(m.into_thrift().column_orders.is_none());
}
