//! The tuple codec: the one place where rows change representation.
//! Decoding turns a materialized host row slot into `(name, value, tag)`
//! tuples, one per declared column; encoding turns a plugin-produced row of
//! optional raw values into the parallel value and null arrays from which
//! the host forms a physical row.

use vstd::prelude::*;

use crate::tuples::{desc_views, ColumnDesc, ColumnDescView, Datum, Tuple, TupleView};

verus! {

/// The materialized image of a host row slot: parallel arrays holding one
/// raw value and one null flag per materialized column. A raw value is
/// meaningful only where its null flag is clear.
pub struct SlotData {
    pub values: Vec<Datum>,
    pub nulls: Vec<bool>,
}

impl SlotData {
    /// A slot image is well formed when its two arrays run in parallel.
    pub open spec fn wf(&self) -> bool {
        self.values@.len() == self.nulls@.len()
    }
}

/// The value and null arrays an encoded row carries, one entry per declared
/// column, ready for the host to form a physical row from.
pub struct EncodedRow {
    pub values: Vec<Datum>,
    pub nulls: Vec<bool>,
}

/// What decoding yields for a slot image: one tuple per declared column,
/// in declaration order, carrying the column's name and type tag and its
/// value — `None` where the null flag is set.
pub open spec fn spec_decode(
    desc: Seq<ColumnDescView>,
    values: Seq<Datum>,
    nulls: Seq<bool>,
) -> Seq<TupleView> {
    Seq::new(
        desc.len(),
        |i: int|
            TupleView {
                name: desc[i].name,
                value: if nulls[i] {
                    None
                } else {
                    Some(values[i])
                },
                type_tag: desc[i].type_oid,
            },
    )
}

/// The value array encoding a row of optional raw values into `n` columns:
/// a supplied, present value is recorded as itself; an absent value or a
/// column beyond the row's end keeps the cleared entry.
pub open spec fn spec_encode_values(cells: Seq<Option<Datum>>, n: nat) -> Seq<Datum> {
    Seq::new(
        n,
        |i: int|
            if i < cells.len() && cells[i] is Some {
                cells[i]->0
            } else {
                0
            },
    )
}

/// The null array encoding a row of optional raw values into `n` columns:
/// a column is null exactly where the row ends before it or supplies no
/// value for it.
pub open spec fn spec_encode_nulls(cells: Seq<Option<Datum>>, n: nat) -> Seq<bool> {
    Seq::new(n, |i: int| !(i < cells.len() && cells[i] is Some))
}

/// Decodes a materialized slot image into one tuple per declared column,
/// preserving declaration order. The slot must carry at least one entry per
/// declared column; the decoder reads nothing beyond that bound.
pub fn decode_slot(desc: &Vec<ColumnDesc>, slot: &SlotData) -> (r: Vec<Tuple>)
    requires
        slot.wf(),
        desc@.len() <= slot.values@.len(),
    ensures
        r@.len() == desc@.len(),
        forall|i: int|
            0 <= i < r@.len() ==> #[trigger] r@[i]@ == spec_decode(
                desc_views(desc@),
                slot.values@,
                slot.nulls@,
            )[i],
{
    let mut tuples: Vec<Tuple> = Vec::new();
    let mut i: usize = 0;
    while i < desc.len()
        invariant
            slot.wf(),
            desc@.len() <= slot.values@.len(),
            i <= desc@.len(),
            tuples@.len() == i,
            forall|j: int|
                0 <= j < i ==> #[trigger] tuples@[j]@ == spec_decode(
                    desc_views(desc@),
                    slot.values@,
                    slot.nulls@,
                )[j],
        decreases desc@.len() - i,
    {
        let value = if slot.nulls[i] {
            None
        } else {
            Some(slot.values[i])
        };
        tuples.push(
            Tuple { name: desc[i].name.clone(), value, type_tag: desc[i].type_oid },
        );
        i = i + 1;
    }
    tuples
}

/// Encodes a row of optional raw values into the value and null arrays of a
/// host row spanning `desc`: each supplied, present value becomes a
/// non-null entry; an absent value, and every column the row omits at its
/// end, becomes a null entry over a cleared value.
pub fn encode_cells(desc: &Vec<ColumnDesc>, cells: &Vec<Option<Datum>>) -> (r: EncodedRow)
    ensures
        r.values@ == spec_encode_values(cells@, desc@.len()),
        r.nulls@ == spec_encode_nulls(cells@, desc@.len()),
{
    let n = desc.len();
    let mut values: Vec<Datum> = Vec::new();
    let mut nulls: Vec<bool> = Vec::new();
    let mut i: usize = 0;
    while i < n
        invariant
            i <= n,
            values@.len() == i,
            nulls@.len() == i,
            forall|j: int|
                0 <= j < i ==> #[trigger] values@[j] == spec_encode_values(cells@, n as nat)[j],
            forall|j: int|
                0 <= j < i ==> #[trigger] nulls@[j] == spec_encode_nulls(cells@, n as nat)[j],
        decreases n - i,
    {
        if i < cells.len() {
            match cells[i] {
                Some(d) => {
                    values.push(d);
                    nulls.push(false);
                },
                None => {
                    values.push(0);
                    nulls.push(true);
                },
            }
        } else {
            values.push(0);
            nulls.push(true);
        }
        i = i + 1;
    }
    proof {
        assert(values@ =~= spec_encode_values(cells@, desc@.len()));
        assert(nulls@ =~= spec_encode_nulls(cells@, desc@.len()));
    }
    EncodedRow { values, nulls }
}

/// Encoding a row and then decoding the resulting arrays gives back, for
/// every column the row supplied, exactly the value supplied (including an
/// explicit `None`), and a null for every column the row omitted — with the
/// column's declared name and type tag throughout.
pub proof fn lemma_encode_decode_round_trip(desc: Seq<ColumnDescView>, cells: Seq<Option<Datum>>)
    requires
        cells.len() <= desc.len(),
    ensures
        ({
            let dec = spec_decode(
                desc,
                spec_encode_values(cells, desc.len()),
                spec_encode_nulls(cells, desc.len()),
            );
            &&& dec.len() == desc.len()
            &&& forall|i: int| 0 <= i < cells.len() ==> #[trigger] dec[i].value == cells[i]
            &&& forall|i: int| cells.len() <= i < desc.len() ==> #[trigger] dec[i].value is None
            &&& forall|i: int|
                0 <= i < desc.len() ==> #[trigger] dec[i].name == desc[i].name && dec[i].type_tag
                    == desc[i].type_oid
        }),
{
}

} // verus!
