//! The schema of a file: the depth-first flattening of its schema tree, and
//! the positions of its leaf columns within it.
use vstd::prelude::*;

use crate::error::Error;
use parquet_format_safe::SchemaElement;

verus! {

/// Whether an element of the flattened tree is a leaf: a leaf has no
/// children count, a group has one.
pub open spec fn is_leaf(e: SchemaElement) -> bool {
    e.num_children is None
}

/// The positions in `1 .. n` of the leaves of `elems`, in ascending order.
/// Position 0 holds the root.
pub open spec fn leaf_positions(elems: Seq<SchemaElement>, n: int) -> Seq<int>
    decreases n,
{
    if n <= 1 {
        seq![]
    } else {
        let before = leaf_positions(elems, n - 1);
        if is_leaf(elems[n - 1]) {
            before.push(n - 1)
        } else {
            before
        }
    }
}

/// The positions of all leaf columns of a flattened schema, in column order.
pub open spec fn leaves(elems: Seq<SchemaElement>) -> Seq<int> {
    leaf_positions(elems, elems.len() as int)
}

/// The number of leaf columns of a flattened schema.
pub open spec fn num_leaves(elems: Seq<SchemaElement>) -> nat {
    leaves(elems).len()
}

/// The element that describes leaf column `i`.
pub open spec fn leaf(elems: Seq<SchemaElement>, i: int) -> SchemaElement {
    elems[leaves(elems)[i]]
}

/// The number of children that an element declares: none for a leaf.
pub open spec fn children(e: SchemaElement) -> int {
    match e.num_children {
        Some(c) => c as int,
        None => 0,
    }
}

/// How many children the groups among the first `k` elements still await
/// after those elements, counting the place of the root as one.
pub open spec fn open_slots(elems: Seq<SchemaElement>, k: int) -> int
    decreases k,
{
    if k <= 0 {
        1
    } else {
        open_slots(elems, k - 1) + children(elems[k - 1]) - 1
    }
}

/// A flattened schema that this library accepts: the depth-first flattening
/// of one tree whose root is a group. No children count is negative; before
/// each element a place awaits it, and after the last none is left. Every
/// leaf has a physical type.
pub open spec fn valid_schema(elems: Seq<SchemaElement>) -> bool {
    &&& elems.len() > 0
    &&& !is_leaf(elems[0])
    &&& forall|p: int| 0 <= p < elems.len() ==> children(#[trigger] elems[p]) >= 0
    &&& forall|k: int| 0 <= k < elems.len() ==> #[trigger] open_slots(elems, k) >= 1
    &&& open_slots(elems, elems.len() as int) == 0
    &&& forall|p: int| 1 <= p < elems.len() && is_leaf(#[trigger] elems[p]) ==> elems[p].type_ is Some
}

proof fn lemma_leaf_positions_bounds(elems: Seq<SchemaElement>, n: int)
    ensures
        forall|i: int|
            0 <= i < leaf_positions(elems, n).len() ==> 1 <= #[trigger] leaf_positions(elems, n)[i]
                < n && is_leaf(elems[leaf_positions(elems, n)[i]]),
    decreases n,
{
    if n > 1 {
        lemma_leaf_positions_bounds(elems, n - 1);
        let before = leaf_positions(elems, n - 1);
        assert forall|i: int| 0 <= i < before.len() implies #[trigger] leaf_positions(elems, n)[i]
            == before[i] by {
            if is_leaf(elems[n - 1]) {
                assert(leaf_positions(elems, n) == before.push(n - 1));
            }
        }
    }
}

/// Every leaf column of a valid schema has a physical type.
pub proof fn lemma_leaf_has_type(elems: Seq<SchemaElement>, i: int)
    requires
        valid_schema(elems),
        0 <= i < num_leaves(elems),
    ensures
        0 < leaves(elems)[i] < elems.len(),
        leaf(elems, i).type_ is Some,
{
    lemma_leaf_positions_bounds(elems, elems.len() as int);
    let p = leaves(elems)[i];
    assert(is_leaf(elems[p]));
}

/// A resolved schema: the flattened tree together with the positions of its
/// leaf columns.
#[derive(Debug, Clone)]
pub struct SchemaDescriptor {
    fields: Vec<SchemaElement>,
    leaf_pos: Vec<usize>,
}

impl View for SchemaDescriptor {
    type V = Seq<SchemaElement>;

    closed spec fn view(&self) -> Seq<SchemaElement> {
        self.fields@
    }
}

impl SchemaDescriptor {
    /// The schema is valid and its leaf positions are those of its tree.
    pub closed spec fn wf(&self) -> bool {
        &&& valid_schema(self.fields@)
        &&& self.leaf_pos@.len() == num_leaves(self.fields@)
        &&& forall|i: int|
            0 <= i < self.leaf_pos@.len() ==> #[trigger] self.leaf_pos@[i] as int == leaves(
                self.fields@,
            )[i]
    }

    /// A well-formed descriptor holds a valid schema.
    pub proof fn lemma_wf_valid(&self)
        requires
            self.wf(),
        ensures
            valid_schema(self@),
    {
    }

    /// Resolves a flattened schema tree into its leaf columns. Fails exactly
    /// when the schema is not valid.
    pub fn try_from_thrift(fields: Vec<SchemaElement>) -> (r: Result<SchemaDescriptor, Error>)
        ensures
            match r {
                Ok(s) => valid_schema(fields@) && s@ == fields@ && s.wf(),
                Err(e) => !valid_schema(fields@) && e == Error::InvalidSchema,
            },
    {
        if fields.len() == 0 || fields[0].num_children.is_none() {
            return Err(Error::InvalidSchema);
        }
        let mut leaf_pos: Vec<usize> = Vec::new();
        let mut open: i128 = 1;
        let mut p: usize = 0;
        while p < fields.len()
            invariant
                p <= fields.len(),
                fields.len() > 0,
                !is_leaf(fields@[0]),
                open == open_slots(fields@, p as int),
                open <= 1 + p * 2147483647,
                leaf_pos@.len() == leaf_positions(fields@, p as int).len(),
                forall|i: int|
                    0 <= i < leaf_pos@.len() ==> #[trigger] leaf_pos@[i] as int == leaf_positions(
                        fields@,
                        p as int,
                    )[i],
                forall|q: int| 0 <= q < p ==> children(#[trigger] fields@[q]) >= 0,
                forall|k: int| 0 <= k < p ==> #[trigger] open_slots(fields@, k) >= 1,
                forall|q: int|
                    1 <= q < p && is_leaf(#[trigger] fields@[q]) ==> fields@[q].type_ is Some,
            decreases fields.len() - p,
        {
            if open < 1 {
                assert(!valid_schema(fields@));
                return Err(Error::InvalidSchema);
            }
            let c: i128 = match fields[p].num_children {
                Some(c) => {
                    if c < 0 {
                        assert(!valid_schema(fields@));
                        return Err(Error::InvalidSchema);
                    }
                    c as i128
                },
                None => {
                    if fields[p].type_.is_none() {
                        assert(!valid_schema(fields@));
                        return Err(Error::InvalidSchema);
                    }
                    leaf_pos.push(p);
                    0
                },
            };
            assert(open + c - 1 <= 1 + (p + 1) * 2147483647) by (nonlinear_arith)
                requires
                    open <= 1 + p * 2147483647,
                    c <= 2147483647,
            ;
            open = open + c - 1;
            p = p + 1;
        }
        if open != 0 {
            return Err(Error::InvalidSchema);
        }
        Ok(SchemaDescriptor { fields, leaf_pos })
    }

    /// Gives the flattened schema tree back.
    pub fn into_thrift(self) -> (r: Vec<SchemaElement>)
        ensures
            r@ == self@,
    {
        self.fields
    }

    /// The number of leaf columns.
    pub fn num_columns(&self) -> (r: usize)
        requires
            self.wf(),
        ensures
            r == num_leaves(self@),
    {
        self.leaf_pos.len()
    }

    /// The element that describes leaf column `i`.
    pub fn column(&self, i: usize) -> (r: &SchemaElement)
        requires
            self.wf(),
            i < num_leaves(self@),
        ensures
            *r == leaf(self@, i as int),
    {
        proof {
            lemma_leaf_has_type(self.fields@, i as int);
        }
        &self.fields[self.leaf_pos[i]]
    }

    /// The elements of the flattened schema tree.
    pub fn fields(&self) -> (r: &Vec<SchemaElement>)
        ensures
            r@ == self@,
    {
        &self.fields
    }
}

} // verus!
