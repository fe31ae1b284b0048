//! The row-boundary data model: raw column values, column descriptors and
//! the `(name, optional value, type tag)` triples that cross the boundary
//! between the host engine and a plugin.

use vstd::prelude::*;

verus! {

/// A raw, type-erased column value as the host engine stores it: one machine
/// word whose meaning is fixed by the accompanying type tag. The adapter
/// never interprets a datum; it only carries it between host rows and plugin
/// tuples.
pub type Datum = u64;

/// A type tag identifying the declared SQL type of a column. Opaque to the
/// adapter: it is forwarded verbatim alongside each value.
pub type TypeTag = u32;

/// Ghost image of a [`ColumnDesc`].
pub ghost struct ColumnDescView {
    pub name: Seq<char>,
    pub type_oid: TypeTag,
    pub att_num: i16,
    pub type_mod: i32,
    pub collation: u32,
}

/// One column of a relation as the catalog declares it: its name, the tag of
/// its declared SQL type, its attribute number and the per-column attributes
/// that a synthetic target entry must repeat.
pub struct ColumnDesc {
    pub name: String,
    pub type_oid: TypeTag,
    pub att_num: i16,
    pub type_mod: i32,
    pub collation: u32,
}

impl View for ColumnDesc {
    type V = ColumnDescView;

    open spec fn view(&self) -> ColumnDescView {
        ColumnDescView {
            name: self.name@,
            type_oid: self.type_oid,
            att_num: self.att_num,
            type_mod: self.type_mod,
            collation: self.collation,
        }
    }
}

/// Ghost image of a [`Tuple`].
pub ghost struct TupleView {
    pub name: Seq<char>,
    pub value: Option<Datum>,
    pub type_tag: TypeTag,
}

/// One column's contribution to a row being inserted, updated or deleted:
/// the column's name, its optional raw value (`None` encodes SQL NULL) and
/// its type tag.
pub struct Tuple {
    pub name: String,
    pub value: Option<Datum>,
    pub type_tag: TypeTag,
}

impl View for Tuple {
    type V = TupleView;

    open spec fn view(&self) -> TupleView {
        TupleView { name: self.name@, value: self.value, type_tag: self.type_tag }
    }
}

/// The ghost image of a whole descriptor list, in declaration order.
pub open spec fn desc_views(desc: Seq<ColumnDesc>) -> Seq<ColumnDescView> {
    desc.map_values(|c: ColumnDesc| c@)
}

} // verus!
