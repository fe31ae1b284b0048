//! The capability interface a plugin author implements: session lifecycle,
//! row production, optional declared index columns, and optional
//! insert/update/delete — plus the row-producer contract the adapter's scan
//! loop relies on.

use vstd::prelude::*;

use crate::options::FdwOptions;
use crate::tuples::{ColumnDesc, Datum, Tuple};

verus! {

/// Conversion of a plugin row item into the host's raw representation. An
/// item converts either to a raw value or to nothing at all; an item
/// without a raw form is recorded as SQL NULL.
pub trait IntoDatum: Sized {
    /// The raw value the item converts to, if any.
    spec fn datum_spec(&self) -> Option<Datum>;

    /// Performs the conversion the item declares.
    fn into_datum(self) -> (r: Option<Datum>)
        ensures
            r == self.datum_spec(),
    ;
}

impl IntoDatum for Datum {
    open spec fn datum_spec(&self) -> Option<Datum> {
        Some(*self)
    }

    fn into_datum(self) -> (r: Option<Datum>) {
        Some(self)
    }
}

impl IntoDatum for Option<Datum> {
    open spec fn datum_spec(&self) -> Option<Datum> {
        *self
    }

    fn into_datum(self) -> (r: Option<Datum>) {
        self
    }
}

/// A lazy, finite, non-restartable sequence of rows: the form in which a
/// plugin hands a table's contents to the adapter. Pulling a row consumes
/// it; once the sequence is exhausted it stays exhausted.
pub trait RowProducer: Sized {
    type Item;

    /// The rows the producer has yet to yield, front first.
    spec fn rows(&self) -> Seq<Seq<Self::Item>>;

    /// Pulls the next row: the front of the remaining rows, or nothing once
    /// every row has been yielded.
    fn next_row(&mut self) -> (r: Option<Vec<Self::Item>>)
        ensures
            old(self).rows().len() == 0 ==> r is None && final(self).rows() == old(self).rows(),
            old(self).rows().len() > 0 ==> (r matches Some(row) && row@ == old(self).rows()[0]
                && final(self).rows() == old(self).rows().drop_first()),
    ;
}

/// A producer backed by a vector of rows, yielded front to back: the
/// simplest way for a plugin to hand over a table snapshot.
pub struct VecRows<I> {
    rows: Vec<Vec<I>>,
}

impl<I> VecRows<I> {
    /// Wraps a snapshot of rows into a producer that will yield exactly
    /// those rows, in order.
    pub fn new(rows: Vec<Vec<I>>) -> (p: Self)
        ensures
            p.rows() == rows@.map_values(|row: Vec<I>| row@),
    {
        VecRows { rows }
    }
}

impl<I> RowProducer for VecRows<I> {
    type Item = I;

    closed spec fn rows(&self) -> Seq<Seq<I>> {
        self.rows@.map_values(|row: Vec<I>| row@)
    }

    fn next_row(&mut self) -> (r: Option<Vec<I>>) {
        if self.rows.len() == 0 {
            None
        } else {
            let row = self.rows.remove(0);
            proof {
                assert(final(self).rows() =~= old(self).rows().drop_first());
            }
            Some(row)
        }
    }
}

/// The operations a plugin supplies to back a foreign table. `begin`
/// constructs per-session state; `execute` hands over the table's current
/// contents as a row producer; `indices` declares which columns identify a
/// row for update/delete; `insert`, `update` and `delete` apply one
/// modification each and may return an advisory transformed row. A plugin
/// is read-only by simply leaving the modification operations at their
/// defaults, which decline every change.
pub trait ForeignData: Sized {
    /// One column value of a produced row.
    type Item: IntoDatum;

    /// The producer `execute` yields a table snapshot through.
    type RowIterator: RowProducer<Item = Self::Item>;

    /// Constructs the per-session state; called once per scan session and
    /// once per modification session, never shared between the two.
    fn begin(options: &FdwOptions) -> Self;

    /// Returns the table's current contents as a lazy row sequence; the
    /// adapter calls this exactly once per scan session.
    fn execute(&mut self, desc: &Vec<ColumnDesc>) -> Self::RowIterator;

    /// The columns whose values must accompany every update/delete as the
    /// row's identity; by default none are declared.
    fn indices(_options: &FdwOptions) -> (r: Option<Vec<String>>) {
        None
    }

    /// Applies one insert; the returned row is advisory only.
    fn insert(&self, _desc: &Vec<ColumnDesc>, _row: Vec<Tuple>) -> (r: Option<Vec<Tuple>>) {
        None
    }

    /// Applies one update, locating rows by the identity tuples; the
    /// returned row is advisory only.
    fn update(
        &self,
        _desc: &Vec<ColumnDesc>,
        _row: Vec<Tuple>,
        _indices: Vec<Tuple>,
    ) -> (r: Option<Vec<Tuple>>) {
        None
    }

    /// Removes the rows matching the identity tuples; the returned row is
    /// advisory only.
    fn delete(&self, _desc: &Vec<ColumnDesc>, _indices: Vec<Tuple>) -> (r: Option<Vec<Tuple>>) {
        None
    }
}

} // verus!
