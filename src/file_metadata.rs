//! The file's footer in native form, and its conversion from and to the
//! fields of the wire footer.
use vstd::prelude::*;

use crate::column_order::{column_orders_from, parse_column_orders, ColumnOrder, ColumnOrderTag};
use crate::error::Error;
use crate::row_group::{fits_usize, lemma_row_group_round_trip, row_group_from, RowGroupMetaData};
use crate::schema::{num_leaves, valid_schema, SchemaDescriptor};
use parquet_format_safe::{KeyValue, RowGroup, SchemaElement};

verus! {

/// The fields of a footer as decoded from the wire, that this library reads
/// and writes. The encryption fields of the wire footer are not among them.
#[derive(Debug, Clone)]
pub struct Footer {
    pub version: i32,
    pub schema: Vec<SchemaElement>,
    pub num_rows: i64,
    pub row_groups: Vec<RowGroup>,
    pub key_value_metadata: Option<Vec<KeyValue>>,
    pub created_by: Option<String>,
    pub column_orders: Option<Vec<ColumnOrderTag>>,
}

/// The contents of a wire footer, with its sequences as `Seq`.
pub struct FooterView {
    pub version: i32,
    pub schema: Seq<SchemaElement>,
    pub num_rows: i64,
    pub row_groups: Seq<RowGroup>,
    pub key_value_metadata: Option<Seq<KeyValue>>,
    pub created_by: Option<String>,
    pub column_orders: Option<Seq<ColumnOrderTag>>,
}

/// The contents of file metadata, with its sequences as `Seq`.
pub struct FileMetaDataView {
    pub version: i32,
    pub num_rows: usize,
    pub created_by: Option<String>,
    pub row_groups: Seq<RowGroupMetaData>,
    pub key_value_metadata: Option<Seq<KeyValue>>,
    pub schema: Seq<SchemaElement>,
    pub column_orders: Option<Seq<ColumnOrder>>,
}

/// An optional vector seen as an optional sequence.
pub open spec fn opt_view<T>(o: Option<Vec<T>>) -> Option<Seq<T>> {
    match o {
        Some(v) => Some(v@),
        None => None,
    }
}

impl View for Footer {
    type V = FooterView;

    open spec fn view(&self) -> FooterView {
        FooterView {
            version: self.version,
            schema: self.schema@,
            num_rows: self.num_rows,
            row_groups: self.row_groups@,
            key_value_metadata: opt_view(self.key_value_metadata),
            created_by: self.created_by,
            column_orders: opt_view(self.column_orders),
        }
    }
}

/// The native row groups that wire row groups become under a schema with
/// `num_columns` leaf columns, or the error of the first that cannot.
pub open spec fn row_groups_from(num_columns: nat, gs: Seq<RowGroup>) -> Result<
    Seq<RowGroupMetaData>,
    Error,
>
    decreases gs.len(),
{
    if gs.len() == 0 {
        Ok(seq![])
    } else {
        match row_groups_from(num_columns, gs.drop_last()) {
            Err(e) => Err(e),
            Ok(done) => match row_group_from(num_columns, gs.last()) {
                Err(e) => Err(e),
                Ok(g) => Ok(done.push(g)),
            },
        }
    }
}

/// The file metadata that a wire footer is read as, or why it cannot be:
/// the schema is resolved first, then the row groups in order, then the row
/// count is narrowed. Order tags never fail.
pub open spec fn from_footer(w: FooterView) -> Result<FileMetaDataView, Error> {
    if !valid_schema(w.schema) {
        Err(Error::InvalidSchema)
    } else {
        match row_groups_from(num_leaves(w.schema), w.row_groups) {
            Err(e) => Err(e),
            Ok(row_groups) => if !fits_usize(w.num_rows) {
                Err(Error::NumRowsOutOfRange)
            } else {
                Ok(
                    FileMetaDataView {
                        version: w.version,
                        num_rows: w.num_rows as usize,
                        created_by: w.created_by,
                        row_groups,
                        key_value_metadata: w.key_value_metadata,
                        schema: w.schema,
                        column_orders: match w.column_orders {
                            Some(tags) => Some(column_orders_from(w.schema, tags)),
                            None => None,
                        },
                    },
                )
            },
        }
    }
}

/// The wire row groups that row groups are written as.
pub open spec fn wire_row_groups(gs: Seq<RowGroupMetaData>) -> Seq<RowGroup> {
    gs.map_values(|g: RowGroupMetaData| g.to_wire())
}

/// The wire footer that file metadata is written as. Column orders are not
/// written.
pub open spec fn to_footer(m: FileMetaDataView) -> FooterView {
    FooterView {
        version: m.version,
        schema: m.schema,
        num_rows: m.num_rows as i64,
        row_groups: wire_row_groups(m.row_groups),
        key_value_metadata: m.key_value_metadata,
        created_by: m.created_by,
        column_orders: None,
    }
}

/// The column order of column `i`: `Undefined` where the metadata has no
/// column orders.
pub open spec fn column_order_at(m: FileMetaDataView, i: int) -> ColumnOrder {
    match m.column_orders {
        Some(orders) => orders[i],
        None => ColumnOrder::Undefined,
    }
}

impl FileMetaDataView {
    /// Metadata that a footer can hold: a valid schema, row groups that fit
    /// it, counts that the wire form can hold, and no more column orders than
    /// leaf columns.
    pub open spec fn valid(self) -> bool {
        &&& valid_schema(self.schema)
        &&& self.num_rows <= i64::MAX
        &&& forall|i: int|
            0 <= i < self.row_groups.len() ==> (#[trigger] self.row_groups[i]).valid(
                num_leaves(self.schema),
            )
        &&& match self.column_orders {
            Some(orders) => orders.len() <= num_leaves(self.schema),
            None => true,
        }
    }
}

/// Metadata for a Parquet file.
#[derive(Debug, Clone)]
pub struct FileMetaData {
    /// version of this file.
    pub version: i32,
    /// number of rows in the file.
    pub num_rows: usize,
    /// The application that wrote this file, in the form
    /// `<application> version <application version> (build <application build hash>)`.
    pub created_by: Option<String>,
    /// The row groups of this file.
    pub row_groups: Vec<RowGroupMetaData>,
    /// Application-defined key/value pairs, in order.
    pub key_value_metadata: Option<Vec<KeyValue>>,
    /// The schema of this file.
    pub schema_descr: SchemaDescriptor,
    /// The (sort) order of the `min` and `max` statistics of each column, by
    /// position. `None`: every column has the undefined (legacy) order.
    pub column_orders: Option<Vec<ColumnOrder>>,
}

impl View for FileMetaData {
    type V = FileMetaDataView;

    open spec fn view(&self) -> FileMetaDataView {
        FileMetaDataView {
            version: self.version,
            num_rows: self.num_rows,
            created_by: self.created_by,
            row_groups: self.row_groups@,
            key_value_metadata: opt_view(self.key_value_metadata),
            schema: self.schema_descr@,
            column_orders: opt_view(self.column_orders),
        }
    }
}

/// The elements of `v` in reverse order, so that popping them yields them in
/// their original order.
fn reversed<T>(v: Vec<T>) -> (r: Vec<T>)
    ensures
        r@.len() == v@.len(),
        forall|i: int| 0 <= i < v@.len() ==> #[trigger] r@[i] == v@[v@.len() - 1 - i],
{
    let ghost all = v@;
    let mut v = v;
    let mut r: Vec<T> = Vec::new();
    while v.len() > 0
        invariant
            r@.len() + v@.len() == all.len(),
            v@ == all.take(v@.len() as int),
            forall|i: int| 0 <= i < r@.len() ==> #[trigger] r@[i] == all[all.len() - 1 - i],
        decreases v@.len(),
    {
        let x = v.pop().unwrap();
        r.push(x);
    }
    r
}

/// Converts the wire row groups in order, stopping at the first that fails.
fn row_groups_try_from_thrift(schema_descr: &SchemaDescriptor, row_groups: Vec<RowGroup>) -> (r:
    Result<Vec<RowGroupMetaData>, Error>)
    requires
        schema_descr.wf(),
    ensures
        match r {
            Ok(v) => row_groups_from(num_leaves(schema_descr@), row_groups@) == Ok::<
                Seq<RowGroupMetaData>,
                Error,
            >(v@) && forall|i: int|
                0 <= i < v@.len() ==> (#[trigger] v@[i]).valid(num_leaves(schema_descr@)),
            Err(e) => row_groups_from(num_leaves(schema_descr@), row_groups@) == Err::<
                Seq<RowGroupMetaData>,
                Error,
            >(e),
        },
{
    let ghost n = num_leaves(schema_descr@);
    let ghost all = row_groups@;
    let mut rest = reversed(row_groups);
    let mut out: Vec<RowGroupMetaData> = Vec::new();
    while rest.len() > 0
        invariant
            schema_descr.wf(),
            n == num_leaves(schema_descr@),
            all == row_groups@,
            out@.len() + rest@.len() == all.len(),
            forall|i: int|
                0 <= i < rest@.len() ==> #[trigger] rest@[i] == all[all.len() - 1 - i],
            row_groups_from(n, all.take(out@.len() as int)) == Ok::<Seq<RowGroupMetaData>, Error>(
                out@,
            ),
            forall|i: int| 0 <= i < out@.len() ==> (#[trigger] out@[i]).valid(n),
        decreases rest@.len(),
    {
        let ghost k = out@.len() as int;
        let rg = rest.pop().unwrap();
        assert(rg == all[k]);
        assert(all.take(k + 1).drop_last() =~= all.take(k));
        assert(all.take(k + 1).last() == rg);
        match RowGroupMetaData::try_from_thrift(schema_descr, rg) {
            Ok(g) => {
                out.push(g);
            },
            Err(e) => {
                proof {
                    assert(row_groups_from(n, all.take(k + 1)) == Err::<
                        Seq<RowGroupMetaData>,
                        Error,
                    >(e));
                    lemma_row_groups_from_prefix_err(n, all, k + 1);
                }
                return Err(e);
            },
        }
    }
    assert(all.take(all.len() as int) =~= all);
    Ok(out)
}

/// Once a prefix of the row groups fails, the whole sequence fails with the
/// same error.
proof fn lemma_row_groups_from_prefix_err(n: nat, gs: Seq<RowGroup>, k: int)
    requires
        0 <= k <= gs.len(),
        row_groups_from(n, gs.take(k)) is Err,
    ensures
        row_groups_from(n, gs) == row_groups_from(n, gs.take(k)),
    decreases gs.len(),
{
    if gs.len() == k {
        assert(gs.take(k) =~= gs);
    } else {
        assert(gs.drop_last().take(k) =~= gs.take(k));
        lemma_row_groups_from_prefix_err(n, gs.drop_last(), k);
    }
}

/// Writes the row groups in order.
fn row_groups_into_thrift(row_groups: Vec<RowGroupMetaData>) -> (r: Vec<RowGroup>)
    requires
        forall|i: int|
            0 <= i < row_groups@.len() ==> (#[trigger] row_groups@[i]).num_rows <= i64::MAX
                && row_groups@[i].total_byte_size <= i64::MAX,
    ensures
        r@ == wire_row_groups(row_groups@),
{
    let ghost all = row_groups@;
    let mut rest = reversed(row_groups);
    let mut out: Vec<RowGroup> = Vec::new();
    while rest.len() > 0
        invariant
            out@.len() + rest@.len() == all.len(),
            forall|i: int|
                0 <= i < rest@.len() ==> #[trigger] rest@[i] == all[all.len() - 1 - i],
            out@ =~= wire_row_groups(all.take(out@.len() as int)),
            forall|i: int|
                0 <= i < all.len() ==> (#[trigger] all[i]).num_rows <= i64::MAX
                    && all[i].total_byte_size <= i64::MAX,
        decreases rest@.len(),
    {
        let ghost k = out@.len() as int;
        let g = rest.pop().unwrap();
        assert(g == all[k]);
        out.push(g.into_thrift());
    }
    assert(all.take(all.len() as int) =~= all);
    out
}

impl FileMetaData {
    /// The schema is resolved and the contents can be written as a footer.
    pub open spec fn wf(&self) -> bool {
        &&& self.schema_descr.wf()
        &&& self@.valid()
    }

    /// Returns the [`SchemaDescriptor`] that describes schema of this file.
    pub fn schema(&self) -> (r: &SchemaDescriptor)
        ensures
            *r == self.schema_descr,
    {
        &self.schema_descr
    }

    /// Returns the key/value metadata.
    pub fn key_value_metadata(&self) -> (r: &Option<Vec<KeyValue>>)
        ensures
            *r == self.key_value_metadata,
    {
        &self.key_value_metadata
    }

    /// Returns the column order of the `i`th column of this file; the
    /// undefined (legacy) order where the file has no column orders.
    pub fn column_order(&self, i: usize) -> (r: ColumnOrder)
        requires
            i < num_leaves(self.schema_descr@),
            match self.column_orders {
                Some(orders) => i < orders@.len(),
                None => true,
            },
        ensures
            r == column_order_at(self@, i as int),
    {
        match &self.column_orders {
            Some(orders) => orders[i],
            None => ColumnOrder::Undefined,
        }
    }

    /// Reads the file metadata from the fields of a wire footer.
    pub fn try_from_thrift(metadata: Footer) -> (r: Result<FileMetaData, Error>)
        ensures
            match r {
                Ok(m) => m.wf() && from_footer(metadata@) == Ok::<FileMetaDataView, Error>(m@),
                Err(e) => from_footer(metadata@) == Err::<FileMetaDataView, Error>(e),
            },
    {
        let ghost w = metadata@;
        let Footer {
            version,
            schema,
            num_rows,
            row_groups,
            key_value_metadata,
            created_by,
            column_orders,
        } = metadata;
        let schema_descr = match SchemaDescriptor::try_from_thrift(schema) {
            Ok(s) => s,
            Err(e) => return Err(e),
        };
        let row_groups = match row_groups_try_from_thrift(&schema_descr, row_groups) {
            Ok(v) => v,
            Err(e) => return Err(e),
        };
        let column_orders = match column_orders {
            Some(tags) => Some(parse_column_orders(tags.as_slice(), &schema_descr)),
            None => None,
        };
        if !(num_rows >= 0 && num_rows as u64 <= usize::MAX as u64) {
            return Err(Error::NumRowsOutOfRange);
        }
        let m = FileMetaData {
            version,
            num_rows: num_rows as usize,
            created_by,
            row_groups,
            key_value_metadata,
            schema_descr,
            column_orders,
        };
        assert(from_footer(w) == Ok::<FileMetaDataView, Error>(m@));
        Ok(m)
    }

    /// Writes the file metadata as the fields of a wire footer. Column orders
    /// are not written. The counts must fit the wire form's `i64`.
    pub fn into_thrift(self) -> (r: Footer)
        requires
            self.num_rows <= i64::MAX,
            forall|i: int|
                0 <= i < self.row_groups@.len() ==> (#[trigger] self.row_groups@[i]).num_rows
                    <= i64::MAX && self.row_groups@[i].total_byte_size <= i64::MAX,
        ensures
            r@ == to_footer(self@),
    {
        let ghost m = self@;
        let row_groups = row_groups_into_thrift(self.row_groups);
        let r = Footer {
            version: self.version,
            schema: self.schema_descr.into_thrift(),
            num_rows: self.num_rows as i64,
            row_groups,
            key_value_metadata: self.key_value_metadata,
            created_by: self.created_by,
            column_orders: None,
        };
        assert(r@ == to_footer(m));
        r
    }
}

/// Valid row groups written to the wire and read back under the same schema
/// come back unchanged.
proof fn lemma_row_groups_round_trip(n: nat, gs: Seq<RowGroupMetaData>)
    requires
        forall|i: int| 0 <= i < gs.len() ==> (#[trigger] gs[i]).valid(n),
    ensures
        row_groups_from(n, wire_row_groups(gs)) == Ok::<
            Seq<RowGroupMetaData>,
            Error,
        >(gs),
    decreases gs.len(),
{
    if gs.len() == 0 {
        assert(gs =~= seq![]);
    } else {
        let ws = wire_row_groups(gs);
        assert(ws.last() == gs.last().to_wire());
        assert(ws.drop_last() =~= wire_row_groups(gs.drop_last()));
        lemma_row_groups_round_trip(n, gs.drop_last());
        assert(gs[gs.len() - 1].valid(n));
        lemma_row_group_round_trip(gs.last(), n);
        assert(gs.drop_last().push(gs.last()) =~= gs);
    }
}

/// Writing valid file metadata without column orders as a footer and reading
/// that footer back gives the same metadata: the same version, row count,
/// writer, row groups, key/value pairs and schema, and still no column orders.
pub proof fn lemma_round_trip(m: FileMetaData)
    requires
        m.wf(),
        m.column_orders is None,
    ensures
        from_footer(to_footer(m@)) == Ok::<FileMetaDataView, Error>(m@),
{
    lemma_row_groups_round_trip(num_leaves(m@.schema), m@.row_groups);
}

/// A footer whose schema is valid and that has no row groups is refused with
/// a row count out of range when its row count is negative; with a row count
/// of zero it is read as metadata with zero rows and no row groups.
pub proof fn lemma_num_rows_boundary(w: FooterView)
    requires
        valid_schema(w.schema),
        w.row_groups.len() == 0,
    ensures
        w.num_rows < 0 ==> from_footer(w) == Err::<FileMetaDataView, Error>(
            Error::NumRowsOutOfRange,
        ),
        w.num_rows == 0 ==> from_footer(w) is Ok && from_footer(w)->Ok_0.num_rows == 0
            && from_footer(w)->Ok_0.row_groups.len() == 0,
{
    assert(row_groups_from(num_leaves(w.schema), w.row_groups) == Ok::<
        Seq<RowGroupMetaData>,
        Error,
    >(seq![]));
}

/// Metadata read from a footer without order tags has the undefined order
/// for every column.
pub proof fn lemma_undefined_fallback(w: FooterView, i: int)
    requires
        w.column_orders is None,
        from_footer(w) is Ok,
    ensures
        column_order_at(from_footer(w)->Ok_0, i) == ColumnOrder::Undefined,
{
}

/// The key/value pairs of a footer are read unchanged, in order and with
/// absent values kept absent, and written back unchanged.
pub proof fn lemma_key_value_pass_through(w: FooterView)
    requires
        from_footer(w) is Ok,
    ensures
        from_footer(w)->Ok_0.key_value_metadata == w.key_value_metadata,
        to_footer(from_footer(w)->Ok_0).key_value_metadata == w.key_value_metadata,
{
}

} // verus!
