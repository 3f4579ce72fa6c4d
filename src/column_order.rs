//! The ordering of each leaf column's statistics, assigned by pairing the
//! footer's order tags with the schema's leaf columns by position.
use vstd::prelude::*;

use crate::schema::{leaf, lemma_leaf_has_type, num_leaves, SchemaDescriptor};
use crate::sort::{resolve_sort_order, sort_order_of, SortOrder};
use parquet_format_safe::SchemaElement;

verus! {

/// The ordering that applies to a column's minimum and maximum statistics.
#[derive(Clone, Copy, Debug, PartialEq, Eq, Hash, Structural)]
pub enum ColumnOrder {
    /// The column's type decides the ordering.
    TypeDefinedOrder(SortOrder),
    /// No ordering is known (legacy files).
    Undefined,
}

/// An order tag of the footer, one per leaf column, saying how that
/// column's statistics are ordered.
#[derive(Clone, Copy, Debug, PartialEq, Eq, Hash, Structural)]
pub enum ColumnOrderTag {
    /// The order that the column's type defines.
    TypeDefined,
}

/// The sort order of leaf column `i` of a flattened schema, from its type tags.
pub open spec fn leaf_sort_order(elems: Seq<SchemaElement>, i: int) -> SortOrder {
    let e = leaf(elems, i);
    sort_order_of(e.logical_type, e.converted_type, e.type_->Some_0)
}

/// What an order tag paired with leaf column `i` means.
pub open spec fn column_order_from(
    elems: Seq<SchemaElement>,
    i: int,
    tag: ColumnOrderTag,
) -> ColumnOrder {
    match tag {
        ColumnOrderTag::TypeDefined => ColumnOrder::TypeDefinedOrder(leaf_sort_order(elems, i)),
    }
}

/// The column orders that a sequence of tags gives for a schema: one for each
/// position that has both a leaf column and a tag.
pub open spec fn column_orders_from(
    elems: Seq<SchemaElement>,
    tags: Seq<ColumnOrderTag>,
) -> Seq<ColumnOrder> {
    let n = if num_leaves(elems) < tags.len() {
        num_leaves(elems)
    } else {
        tags.len()
    };
    Seq::new(n, |i: int| column_order_from(elems, i, tags[i]))
}

/// Pairs the order tags with the schema's leaf columns by position, stopping
/// at the shorter of the two, and resolves each column's sort order.
pub fn parse_column_orders(orders: &[ColumnOrderTag], schema_descr: &SchemaDescriptor) -> (r: Vec<
    ColumnOrder,
>)
    requires
        schema_descr.wf(),
    ensures
        r@ == column_orders_from(schema_descr@, orders@),
{
    let num_columns = schema_descr.num_columns();
    let n = if num_columns < orders.len() {
        num_columns
    } else {
        orders.len()
    };
    let mut r: Vec<ColumnOrder> = Vec::new();
    let mut i: usize = 0;
    while i < n
        invariant
            schema_descr.wf(),
            n == column_orders_from(schema_descr@, orders@).len(),
            n <= num_leaves(schema_descr@),
            n <= orders@.len(),
            i <= n,
            r@ =~= column_orders_from(schema_descr@, orders@).take(i as int),
        decreases n - i,
    {
        let column = schema_descr.column(i);
        proof {
            schema_descr.lemma_wf_valid();
            lemma_leaf_has_type(schema_descr@, i as int);
        }
        let order = match &orders[i] {
            ColumnOrderTag::TypeDefined => {
                let physical_type = column.type_.as_ref().unwrap();
                ColumnOrder::TypeDefinedOrder(
                    resolve_sort_order(&column.logical_type, &column.converted_type, physical_type),
                )
            },
        };
        r.push(order);
        i = i + 1;
    }
    r
}

/// When the tags and the leaf columns are equally many, there is one column
/// order for each leaf column, and the one at each position is the type
/// defined order of the leaf column at that position.
pub proof fn lemma_column_order_alignment(elems: Seq<SchemaElement>, tags: Seq<ColumnOrderTag>)
    requires
        tags.len() == num_leaves(elems),
    ensures
        column_orders_from(elems, tags).len() == num_leaves(elems),
        forall|i: int|
            0 <= i < num_leaves(elems) ==> #[trigger] column_orders_from(elems, tags)[i]
                == ColumnOrder::TypeDefinedOrder(leaf_sort_order(elems, i)),
{
    assert forall|i: int| 0 <= i < num_leaves(elems) implies #[trigger] column_orders_from(
        elems,
        tags,
    )[i] == ColumnOrder::TypeDefinedOrder(leaf_sort_order(elems, i)) by {
        match tags[i] {
            ColumnOrderTag::TypeDefined => {},
        }
    }
}

} // verus!
