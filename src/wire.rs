//! Declarations of the Thrift wire structures of the footer, as defined by
//! `parquet_format_safe`. The structures whose fields the logic reads are
//! declared with their fields; the others are carried through unopened.
use vstd::prelude::*;

verus! {

#[verifier::external_type_specification]
pub struct ExType(parquet_format_safe::Type);

#[verifier::external_type_specification]
pub struct ExConvertedType(parquet_format_safe::ConvertedType);

#[verifier::external_type_specification]
pub struct ExFieldRepetitionType(parquet_format_safe::FieldRepetitionType);

#[verifier::external_type_specification]
pub struct ExIntType(parquet_format_safe::IntType);

#[verifier::external_type_specification]
#[verifier::external_body]
pub struct ExStringType(parquet_format_safe::StringType);

#[verifier::external_type_specification]
#[verifier::external_body]
pub struct ExMapType(parquet_format_safe::MapType);

#[verifier::external_type_specification]
#[verifier::external_body]
pub struct ExListType(parquet_format_safe::ListType);

#[verifier::external_type_specification]
#[verifier::external_body]
pub struct ExEnumType(parquet_format_safe::EnumType);

#[verifier::external_type_specification]
#[verifier::external_body]
pub struct ExDecimalType(parquet_format_safe::DecimalType);

#[verifier::external_type_specification]
#[verifier::external_body]
pub struct ExDateType(parquet_format_safe::DateType);

#[verifier::external_type_specification]
#[verifier::external_body]
pub struct ExTimeType(parquet_format_safe::TimeType);

#[verifier::external_type_specification]
#[verifier::external_body]
pub struct ExTimestampType(parquet_format_safe::TimestampType);

#[verifier::external_type_specification]
#[verifier::external_body]
pub struct ExNullType(parquet_format_safe::NullType);

#[verifier::external_type_specification]
#[verifier::external_body]
pub struct ExJsonType(parquet_format_safe::JsonType);

#[verifier::external_type_specification]
#[verifier::external_body]
pub struct ExBsonType(parquet_format_safe::BsonType);

#[verifier::external_type_specification]
#[verifier::external_body]
pub struct ExUuidType(parquet_format_safe::UUIDType);

#[verifier::external_type_specification]
pub struct ExLogicalType(parquet_format_safe::LogicalType);

#[verifier::external_type_specification]
pub struct ExSchemaElement(parquet_format_safe::SchemaElement);

#[verifier::external_type_specification]
pub struct ExKeyValue(parquet_format_safe::KeyValue);

#[verifier::external_type_specification]
#[verifier::external_body]
pub struct ExColumnChunk(parquet_format_safe::ColumnChunk);

#[verifier::external_type_specification]
#[verifier::external_body]
pub struct ExSortingColumn(parquet_format_safe::SortingColumn);

#[verifier::external_type_specification]
pub struct ExRowGroup(parquet_format_safe::RowGroup);

} // verus!
