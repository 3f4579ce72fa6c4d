//! Row groups: their wire form checked against the schema and narrowed to
//! native sizes, and widened back.
use vstd::prelude::*;

use crate::error::Error;
use crate::schema::{num_leaves, SchemaDescriptor};
use parquet_format_safe::{ColumnChunk, RowGroup, SortingColumn};

verus! {

/// Whether a wire count can be held as a `usize`.
pub open spec fn fits_usize(x: i64) -> bool {
    0 <= x && x <= usize::MAX
}

/// Metadata of one row group. The column chunks are carried unopened, one per
/// leaf column of the schema.
#[derive(Debug, Clone)]
pub struct RowGroupMetaData {
    pub columns: Vec<ColumnChunk>,
    pub num_rows: usize,
    pub total_byte_size: usize,
    pub sorting_columns: Option<Vec<SortingColumn>>,
    pub file_offset: Option<i64>,
    pub total_compressed_size: Option<i64>,
    pub ordinal: Option<i16>,
}

/// The native row group that a wire row group becomes under a schema with
/// `num_columns` leaf columns, or why it cannot.
pub open spec fn row_group_from(num_columns: nat, g: RowGroup) -> Result<RowGroupMetaData, Error> {
    if g.columns@.len() != num_columns {
        Err(Error::RowGroupColumnCount)
    } else if !fits_usize(g.num_rows) || !fits_usize(g.total_byte_size) {
        Err(Error::RowGroupOutOfRange)
    } else {
        Ok(
            RowGroupMetaData {
                columns: g.columns,
                num_rows: g.num_rows as usize,
                total_byte_size: g.total_byte_size as usize,
                sorting_columns: g.sorting_columns,
                file_offset: g.file_offset,
                total_compressed_size: g.total_compressed_size,
                ordinal: g.ordinal,
            },
        )
    }
}

impl RowGroupMetaData {
    /// Fits a schema with `num_columns` leaf columns, and its sizes can be
    /// written in the wire form.
    pub open spec fn valid(&self, num_columns: nat) -> bool {
        &&& self.columns@.len() == num_columns
        &&& self.num_rows <= i64::MAX
        &&& self.total_byte_size <= i64::MAX
    }

    /// The wire row group that this one is written as.
    pub open spec fn to_wire(self) -> RowGroup {
        RowGroup {
            columns: self.columns,
            total_byte_size: self.total_byte_size as i64,
            num_rows: self.num_rows as i64,
            sorting_columns: self.sorting_columns,
            file_offset: self.file_offset,
            total_compressed_size: self.total_compressed_size,
            ordinal: self.ordinal,
        }
    }

    /// Converts a wire row group, checking it against the schema's columns.
    pub fn try_from_thrift(schema_descr: &SchemaDescriptor, rg: RowGroup) -> (r: Result<
        RowGroupMetaData,
        Error,
    >)
        requires
            schema_descr.wf(),
        ensures
            r == row_group_from(num_leaves(schema_descr@), rg),
    {
        if rg.columns.len() != schema_descr.num_columns() {
            return Err(Error::RowGroupColumnCount);
        }
        if !(rg.num_rows >= 0 && rg.num_rows as u64 <= usize::MAX as u64) || !(rg.total_byte_size
            >= 0 && rg.total_byte_size as u64 <= usize::MAX as u64) {
            return Err(Error::RowGroupOutOfRange);
        }
        Ok(
            RowGroupMetaData {
                columns: rg.columns,
                num_rows: rg.num_rows as usize,
                total_byte_size: rg.total_byte_size as usize,
                sorting_columns: rg.sorting_columns,
                file_offset: rg.file_offset,
                total_compressed_size: rg.total_compressed_size,
                ordinal: rg.ordinal,
            },
        )
    }

    /// Writes this row group in its wire form.
    pub fn into_thrift(self) -> (r: RowGroup)
        requires
            self.num_rows <= i64::MAX,
            self.total_byte_size <= i64::MAX,
        ensures
            r == self.to_wire(),
    {
        RowGroup {
            columns: self.columns,
            total_byte_size: self.total_byte_size as i64,
            num_rows: self.num_rows as i64,
            sorting_columns: self.sorting_columns,
            file_offset: self.file_offset,
            total_compressed_size: self.total_compressed_size,
            ordinal: self.ordinal,
        }
    }
}

/// Reading a valid row group back from its wire form gives it unchanged.
pub proof fn lemma_row_group_round_trip(g: RowGroupMetaData, num_columns: nat)
    requires
        g.valid(num_columns),
    ensures
        row_group_from(num_columns, g.to_wire()) == Ok::<RowGroupMetaData, Error>(g),
{
}

} // verus!
