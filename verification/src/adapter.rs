//! The protocol adapter: a generic wrapper over a [`ForeignData`]
//! implementation that owns one session's state across the host-driven
//! callback sequence — scan begin and iterate, the modify-target step, and
//! the modification entry points — marshalling rows through the tuple codec
//! at the boundary.

use vstd::prelude::*;

use crate::capability::{ForeignData, IntoDatum, RowProducer};
use crate::codec::{
    decode_slot, encode_cells, spec_decode, spec_encode_nulls, spec_encode_values, EncodedRow,
    SlotData,
};
use crate::options::FdwOptions;
use crate::tuples::{desc_views, ColumnDesc, ColumnDescView, Datum, Tuple, TypeTag};

verus! {

/// The raw values a produced row converts to, one optional datum per item.
pub open spec fn row_datums<I: IntoDatum>(row: Seq<I>) -> Seq<Option<Datum>> {
    row.map_values(|x: I| x.datum_spec())
}

/// One session's adapter state: the plugin's per-session state plus the
/// session's row cursor — absent until the first row is requested, then
/// present for the rest of the scan. The ghost counter records how often
/// the session has invoked the plugin's `execute`.
pub struct FdwState<T: ForeignData> {
    pub state: T,
    pub itr: Option<T::RowIterator>,
    pub executes: Ghost<nat>,
}

impl<T: ForeignData> FdwState<T> {
    /// The session invariant: the plugin's `execute` has run exactly once
    /// if the row cursor exists, and not at all before that. In
    /// particular, a session never observes a second `execute` call.
    pub open spec fn wf(&self) -> bool {
        self.executes@ == if self.itr is Some {
            1nat
        } else {
            0nat
        }
    }

    /// Opens a scan session: fresh plugin state from the session's
    /// options, no row cursor yet.
    pub fn begin_foreign_scan(opts: &FdwOptions) -> (s: Self)
        ensures
            s.itr is None,
            s.executes@ == 0,
            s.wf(),
    {
        FdwState { state: T::begin(opts), itr: None, executes: Ghost(0) }
    }

    /// Opens a modification session, independent of any scan session:
    /// fresh plugin state, no row cursor.
    pub fn begin_foreign_modify(opts: &FdwOptions) -> (s: Self)
        ensures
            s.itr is None,
            s.executes@ == 0,
            s.wf(),
    {
        FdwState { state: T::begin(opts), itr: None, executes: Ghost(0) }
    }

    /// Pulls the next produced row: on the session's first call this
    /// obtains the row producer by the one `execute` invocation and takes
    /// its first row; afterwards it pulls from the stored producer. Once
    /// the producer reports exhaustion, every later call reports
    /// exhaustion too, without touching the plugin state again.
    fn itr_next(&mut self, desc: &Vec<ColumnDesc>) -> (r: Option<Vec<T::Item>>)
        requires
            old(self).wf(),
        ensures
            final(self).wf(),
            final(self).itr is Some,
            final(self).executes@ == old(self).executes@ + (if old(self).itr is Some {
                0nat
            } else {
                1nat
            }),
            old(self).itr is Some ==> final(self).state == old(self).state,
            old(self).itr matches Some(p) ==> match r {
                None => p.rows().len() == 0 && final(self).itr->0.rows() == p.rows(),
                Some(row) => p.rows().len() > 0 && row@ == p.rows()[0] && final(self).itr->0.rows()
                    == p.rows().drop_first(),
            },
            r is None ==> final(self).itr->0.rows().len() == 0,
    {
        match self.itr.take() {
            None => {
                let mut producer = self.state.execute(desc);
                self.executes = Ghost(self.executes@ + 1);
                let r = producer.next_row();
                self.itr = Some(producer);
                r
            },
            Some(mut producer) => {
                let r = producer.next_row();
                self.itr = Some(producer);
                r
            },
        }
    }

    /// Encodes one produced row for the host: each item's raw conversion
    /// becomes one column entry, items without a raw form and columns the
    /// row omits at its end become nulls.
    pub fn store_tuple(desc: &Vec<ColumnDesc>, row: Vec<T::Item>) -> (r: EncodedRow)
        ensures
            r.values@ == spec_encode_values(row_datums(row@), desc@.len()),
            r.nulls@ == spec_encode_nulls(row_datums(row@), desc@.len()),
    {
        let ghost orig = row@;
        let mut row = row;
        let mut cells: Vec<Option<Datum>> = Vec::new();
        while row.len() > 0
            invariant
                cells@.len() + row@.len() == orig.len(),
                forall|j: int|
                    0 <= j < cells@.len() ==> #[trigger] cells@[j] == orig[j].datum_spec(),
                forall|j: int|
                    0 <= j < row@.len() ==> #[trigger] row@[j] == orig[cells@.len() + j],
            decreases row@.len(),
        {
            let item = row.remove(0);
            cells.push(item.into_datum());
        }
        proof {
            assert(cells@ =~= row_datums(orig));
        }
        encode_cells(desc, &cells)
    }

    /// One iterate step of the scan lifecycle: pulls the next row (creating
    /// the producer on the session's first call) and encodes it for the
    /// host's output slot; an exhausted producer yields `None`, the model
    /// of the cleared slot that signals end of scan to the host.
    pub fn iterate_foreign_scan(&mut self, desc: &Vec<ColumnDesc>) -> (r: Option<EncodedRow>)
        requires
            old(self).wf(),
        ensures
            final(self).wf(),
            final(self).itr is Some,
            final(self).executes@ == old(self).executes@ + (if old(self).itr is Some {
                0nat
            } else {
                1nat
            }),
            old(self).itr is Some ==> final(self).state == old(self).state,
            old(self).itr matches Some(p) ==> match r {
                None => p.rows().len() == 0 && final(self).itr->0.rows() == p.rows(),
                Some(er) => p.rows().len() > 0 && er.values@ == spec_encode_values(
                    row_datums(p.rows()[0]),
                    desc@.len(),
                ) && er.nulls@ == spec_encode_nulls(row_datums(p.rows()[0]), desc@.len())
                    && final(self).itr->0.rows() == p.rows().drop_first(),
            },
            r is None ==> final(self).itr->0.rows().len() == 0,
    {
        match self.itr_next(desc) {
            None => None,
            Some(row) => Some(Self::store_tuple(desc, row)),
        }
    }

    /// Restarting a scan is a deliberate no-op: the adapter keeps the
    /// session exactly as it stands.
    pub fn re_scan_foreign_scan(&mut self)
        ensures
            *final(self) == *old(self),
    {
    }

    /// Ending a scan is a no-op; the host owns and reclaims the session's
    /// enclosing allocation.
    pub fn end_foreign_scan(&mut self)
        ensures
            *final(self) == *old(self),
    {
    }

    /// Ending a modification session is a no-op, like ending a scan.
    pub fn end_foreign_modify(&mut self)
        ensures
            *final(self) == *old(self),
    {
    }

    /// One insert: the incoming host row is decoded into tuples, the
    /// plugin's `insert` is dispatched on them (its advisory result is not
    /// consulted), and the slot passes through unchanged.
    pub fn exec_foreign_insert(&self, desc: &Vec<ColumnDesc>, slot: SlotData) -> (r: SlotData)
        requires
            slot.wf(),
            desc@.len() <= slot.values@.len(),
        ensures
            r == slot,
    {
        let tuples = Self::slot_to_tuples(desc, &slot);
        let _result = self.state.insert(desc, tuples);
        slot
    }

    /// Decodes a materialized host row slot into one tuple per declared
    /// column, via the tuple codec.
    pub fn slot_to_tuples(desc: &Vec<ColumnDesc>, slot: &SlotData) -> (r: Vec<Tuple>)
        requires
            slot.wf(),
            desc@.len() <= slot.values@.len(),
        ensures
            r@.len() == desc@.len(),
            forall|i: int|
                0 <= i < r@.len() ==> #[trigger] r@[i]@ == spec_decode(
                    desc_views(desc@),
                    slot.values@,
                    slot.nulls@,
                )[i],
    {
        decode_slot(desc, slot)
    }

    /// One update: the new row image and the identity image are decoded
    /// into tuples, the plugin's `update` is dispatched on them (advisory
    /// result not consulted), and the new-row slot passes through
    /// unchanged.
    pub fn exec_foreign_update(
        &self,
        desc: &Vec<ColumnDesc>,
        slot: SlotData,
        plan_desc: &Vec<ColumnDesc>,
        plan_slot: &SlotData,
    ) -> (r: SlotData)
        requires
            slot.wf(),
            desc@.len() <= slot.values@.len(),
            plan_slot.wf(),
            plan_desc@.len() <= plan_slot.values@.len(),
        ensures
            r == slot,
    {
        let tuples = Self::slot_to_tuples(desc, &slot);
        let indices = Self::slot_to_tuples(plan_desc, plan_slot);
        let _result = self.state.update(desc, tuples, indices);
        slot
    }

    /// One delete: the identity image is decoded into tuples, the plugin's
    /// `delete` is dispatched on them (advisory result not consulted), and
    /// the scan slot passes through unchanged.
    pub fn exec_foreign_delete(
        &self,
        slot: SlotData,
        plan_desc: &Vec<ColumnDesc>,
        plan_slot: &SlotData,
    ) -> (r: SlotData)
        requires
            plan_slot.wf(),
            plan_desc@.len() <= plan_slot.values@.len(),
        ensures
            r == slot,
    {
        let tuples = Self::slot_to_tuples(plan_desc, plan_slot);
        let _result = self.state.delete(plan_desc, tuples);
        slot
    }
}

/// Ghost image of a [`TargetEntry`].
pub ghost struct TargetEntryView {
    pub name: Seq<char>,
    pub var_no: u32,
    pub att_num: i16,
    pub att_type: TypeTag,
    pub att_typmod: i32,
    pub att_collation: u32,
    pub res_no: int,
    pub res_junk: bool,
}

/// One entry of a statement's target list, as the modify-target step sees
/// it: a column reference (the referenced range-table entry and the
/// column's attribute number, type, type modifier and collation) at a
/// 1-based position, marked junk when it exists only to carry row identity.
pub struct TargetEntry {
    pub name: String,
    pub var_no: u32,
    pub att_num: i16,
    pub att_type: TypeTag,
    pub att_typmod: i32,
    pub att_collation: u32,
    pub res_no: usize,
    pub res_junk: bool,
}

impl View for TargetEntry {
    type V = TargetEntryView;

    open spec fn view(&self) -> TargetEntryView {
        TargetEntryView {
            name: self.name@,
            var_no: self.var_no,
            att_num: self.att_num,
            att_type: self.att_type,
            att_typmod: self.att_typmod,
            att_collation: self.att_collation,
            res_no: self.res_no as int,
            res_junk: self.res_junk,
        }
    }
}

/// The ghost image of a whole target list, in statement order.
pub open spec fn target_entry_views(entries: Seq<TargetEntry>) -> Seq<TargetEntryView> {
    entries.map_values(|e: TargetEntry| e@)
}

/// The ghost images of a list of declared key names.
pub open spec fn key_views(keys: Seq<String>) -> Seq<Seq<char>> {
    keys.map_values(|k: String| k@)
}

/// The column names a target list's entries already select.
pub open spec fn entry_names(entries: Seq<TargetEntry>) -> Seq<Seq<char>> {
    entries.map_values(|e: TargetEntry| e.name@)
}

/// The synthetic junk entry that carries one identity column's value: a
/// reference to that column of the modified relation, at the given
/// position.
pub open spec fn spec_identity_entry(
    col: ColumnDescView,
    var_no: u32,
    res_no: int,
) -> TargetEntryView {
    TargetEntryView {
        name: col.name,
        var_no,
        att_num: col.att_num,
        att_type: col.type_oid,
        att_typmod: col.type_mod,
        att_collation: col.collation,
        res_no,
        res_junk: true,
    }
}

/// The entries the modify-target step appends for a declared key list:
/// one synthetic junk entry per declared column whose name the keys hold
/// and the statement's target list does not already select (`listed`), in
/// declaration order, at consecutive positions from `next_resno` on.
pub open spec fn spec_injected(
    keys: Seq<Seq<char>>,
    listed: Seq<Seq<char>>,
    desc: Seq<ColumnDescView>,
    var_no: u32,
    next_resno: int,
) -> Seq<TargetEntryView>
    decreases desc.len(),
{
    if desc.len() == 0 {
        Seq::empty()
    } else {
        let init = spec_injected(keys, listed, desc.drop_last(), var_no, next_resno);
        if keys.contains(desc.last().name) && !listed.contains(desc.last().name) {
            init.push(spec_identity_entry(desc.last(), var_no, next_resno + init.len()))
        } else {
            init
        }
    }
}

/// Whether a key list holds a column name.
fn contains_name(keys: &Vec<String>, name: &String) -> (r: bool)
    ensures
        r == key_views(keys@).contains(name@),
{
    let mut i: usize = 0;
    while i < keys.len()
        invariant
            i <= keys@.len(),
            forall|j: int| 0 <= j < i ==> key_views(keys@)[j] != name@,
        decreases keys@.len() - i,
    {
        if keys[i].eq(name) {
            proof {
                assert(key_views(keys@)[i as int] == name@);
            }
            return true;
        }
        i = i + 1;
    }
    proof {
        assert forall|j: int| 0 <= j < keys@.len() implies key_views(keys@)[j] != name@ by {}
    }
    false
}

/// Appends, for each declared column whose name the key list holds and the
/// target list does not already select, one synthetic junk target entry
/// referencing that column, at consecutive positions after the list's
/// current end; every existing entry stays in place. The filter consults
/// the statement's original list, not the entries this step appends.
pub fn inject_identity_targets(
    target_list: &mut Vec<TargetEntry>,
    keys: &Vec<String>,
    desc: &Vec<ColumnDesc>,
    var_no: u32,
)
    requires
        old(target_list)@.len() + desc@.len() <= usize::MAX,
    ensures
        final(target_list)@.len() >= old(target_list)@.len(),
        final(target_list)@.len() <= old(target_list)@.len() + desc@.len(),
        forall|i: int|
            0 <= i < old(target_list)@.len() ==> #[trigger] final(target_list)@[i]
                == old(target_list)@[i],
        target_entry_views(final(target_list)@) == target_entry_views(old(target_list)@)
            + spec_injected(
            key_views(keys@),
            entry_names(old(target_list)@),
            desc_views(desc@),
            var_no,
            old(target_list)@.len() as int + 1,
        ),
{
    let ghost old_views = target_entry_views(old(target_list)@);
    let ghost kv = key_views(keys@);
    let ghost dv = desc_views(desc@);
    let ghost ln = entry_names(old(target_list)@);
    let ghost start: int = old(target_list)@.len() as int + 1;

    let mut listed: Vec<String> = Vec::new();
    let mut k: usize = 0;
    while k < target_list.len()
        invariant
            k <= target_list@.len(),
            target_list@ == old(target_list)@,
            listed@.len() == k,
            forall|j: int| 0 <= j < k ==> #[trigger] listed@[j] == target_list@[j].name,
        decreases target_list@.len() - k,
    {
        listed.push(target_list[k].name.clone());
        k = k + 1;
    }
    proof {
        assert(key_views(listed@) =~= entry_names(target_list@));
    }

    let mut i: usize = 0;
    while i < desc.len()
        invariant
            i <= desc@.len(),
            kv == key_views(keys@),
            dv == desc_views(desc@),
            ln == entry_names(old(target_list)@),
            key_views(listed@) == ln,
            old_views == target_entry_views(old(target_list)@),
            start == old(target_list)@.len() as int + 1,
            old(target_list)@.len() + desc@.len() <= usize::MAX,
            target_list@.len() >= old(target_list)@.len(),
            target_list@.len() <= old(target_list)@.len() + i,
            forall|j: int|
                0 <= j < old(target_list)@.len() ==> #[trigger] target_list@[j]
                    == old(target_list)@[j],
            target_entry_views(target_list@) == old_views + spec_injected(
                kv,
                ln,
                dv.take(i as int),
                var_no,
                start,
            ),
        decreases desc@.len() - i,
    {
        proof {
            assert(dv.take(i + 1).drop_last() =~= dv.take(i as int));
            assert(dv.take(i + 1).last() == dv[i as int]);
            assert(dv[i as int] == desc@[i as int]@);
        }
        if contains_name(keys, &desc[i].name) && !contains_name(&listed, &desc[i].name) {
            let res_no = target_list.len() + 1;
            let entry = TargetEntry {
                name: desc[i].name.clone(),
                var_no,
                att_num: desc[i].att_num,
                att_type: desc[i].type_oid,
                att_typmod: desc[i].type_mod,
                att_collation: desc[i].collation,
                res_no,
                res_junk: true,
            };
            proof {
                let init = spec_injected(kv, ln, dv.take(i as int), var_no, start);
                assert(target_entry_views(target_list@).len() == target_list@.len());
                assert((old_views + init).len() == old_views.len() + init.len());
                assert(target_list@.len() == old_views.len() + init.len());
                assert(entry@ == spec_identity_entry(dv[i as int], var_no, start + init.len()));
            }
            let ghost prev = target_list@;
            target_list.push(entry);
            proof {
                assert(target_list@ == prev.push(entry));
                assert(spec_injected(kv, ln, dv.take(i + 1), var_no, start) == spec_injected(
                    kv,
                    ln,
                    dv.take(i as int),
                    var_no,
                    start,
                ).push(entry@));
                assert(target_entry_views(prev.push(entry)) =~= target_entry_views(prev).push(
                    entry@,
                ));
                assert(target_entry_views(target_list@) =~= old_views + spec_injected(
                    kv,
                    ln,
                    dv.take(i + 1),
                    var_no,
                    start,
                ));
            }
        } else {
            proof {
                assert(target_entry_views(target_list@) =~= old_views + spec_injected(
                    kv,
                    ln,
                    dv.take(i + 1),
                    var_no,
                    start,
                ));
            }
        }
        i = i + 1;
    }
    proof {
        assert(dv.take(desc@.len() as int) =~= dv);
    }
}

impl<T: ForeignData> FdwState<T> {
    /// The modify-target step: where the plugin declares identity columns,
    /// appends one synthetic junk entry per declared column the statement's
    /// target list does not already select, so that update/delete always
    /// receive the row's identity values; where it declares none, or every
    /// declared column is already selected, the list is left as it stands.
    /// Existing entries are never moved or changed.
    pub fn add_foreign_update_targets(
        target_list: &mut Vec<TargetEntry>,
        var_no: u32,
        desc: &Vec<ColumnDesc>,
        opts: &FdwOptions,
    )
        requires
            old(target_list)@.len() + desc@.len() <= usize::MAX,
        ensures
            final(target_list)@.len() >= old(target_list)@.len(),
            final(target_list)@.len() <= old(target_list)@.len() + desc@.len(),
            forall|i: int|
                0 <= i < old(target_list)@.len() ==> #[trigger] final(target_list)@[i]
                    == old(target_list)@[i],
            forall|i: int|
                old(target_list)@.len() <= i < final(target_list)@.len()
                    ==> (#[trigger] final(target_list)@[i])@.res_junk,
    {
        match T::indices(opts) {
            Some(keys) => {
                let ghost old_list = target_list@;
                inject_identity_targets(target_list, &keys, desc, var_no);
                proof {
                    let kv = key_views(keys@);
                    let ln = entry_names(old_list);
                    let dv = desc_views(desc@);
                    let start: int = old_list.len() as int + 1;
                    let injected = spec_injected(kv, ln, dv, var_no, start);
                    lemma_injected_all_junk(kv, ln, dv, var_no, start);
                    assert(target_entry_views(old_list).len() == old_list.len());
                    assert(target_entry_views(target_list@).len() == target_list@.len());
                    assert(target_entry_views(target_list@) == target_entry_views(old_list)
                        + injected);
                    assert forall|i: int|
                        old_list.len() <= i < target_list@.len() implies (#[trigger] target_list@[i])@.res_junk by {
                        assert(target_entry_views(target_list@)[i] == target_list@[i]@);
                        assert(target_entry_views(target_list@)[i] == injected[i - old_list.len()]);
                        assert(injected[i - old_list.len()].res_junk);
                    }
                }
            },
            None => {
            },
        }
    }
}

/// Every injected entry is marked junk.
pub proof fn lemma_injected_all_junk(
    keys: Seq<Seq<char>>,
    listed: Seq<Seq<char>>,
    desc: Seq<ColumnDescView>,
    var_no: u32,
    next_resno: int,
)
    ensures
        forall|i: int|
            0 <= i < spec_injected(keys, listed, desc, var_no, next_resno).len() ==> (
            #[trigger] spec_injected(keys, listed, desc, var_no, next_resno)[i]).res_junk,
    decreases desc.len(),
{
    if desc.len() > 0 {
        let prefix = desc.drop_last();
        lemma_injected_all_junk(keys, listed, prefix, var_no, next_resno);
        let w = spec_injected(keys, listed, desc, var_no, next_resno);
        let init = spec_injected(keys, listed, prefix, var_no, next_resno);
        assert forall|i: int| 0 <= i < w.len() implies (#[trigger] w[i]).res_junk by {
            if keys.contains(desc.last().name) && !listed.contains(desc.last().name) {
                let entry = spec_identity_entry(desc.last(), var_no, next_resno + init.len());
                assert(w == init.push(entry));
                if i < init.len() {
                    assert(w[i] == init[i]);
                    assert(init[i].res_junk);
                } else {
                    assert(w[i] == entry);
                }
            } else {
                assert(w == init);
                assert(init[i].res_junk);
            }
        }
    }
}

/// Where the plugin declares a single identity key, the statement's target
/// list does not already select it, and exactly one declared column bears
/// that name, the modify-target step injects exactly one synthetic entry:
/// that column's, at the first free position.
pub proof fn lemma_single_identity_injection(
    keys: Seq<Seq<char>>,
    listed: Seq<Seq<char>>,
    desc: Seq<ColumnDescView>,
    var_no: u32,
    next_resno: int,
    j: int,
)
    requires
        keys.len() == 1,
        !listed.contains(keys[0]),
        0 <= j < desc.len(),
        desc[j].name == keys[0],
        forall|i: int| 0 <= i < desc.len() && i != j ==> #[trigger] desc[i].name != keys[0],
    ensures
        spec_injected(keys, listed, desc, var_no, next_resno) == seq![
            spec_identity_entry(desc[j], var_no, next_resno),
        ],
    decreases desc.len(),
{
    let last = desc.len() - 1;
    let prefix = desc.drop_last();
    assert(desc.last() == desc[last]);
    if j == last {
        lemma_nothing_to_inject(keys, listed, prefix, var_no, next_resno);
        assert(keys.contains(desc[last].name)) by {
            assert(keys[0] == desc[last].name);
        }
        assert(!listed.contains(desc[last].name));
        assert(spec_injected(keys, listed, desc, var_no, next_resno) =~= seq![
            spec_identity_entry(desc[j], var_no, next_resno),
        ]);
    } else {
        assert(!keys.contains(desc[last].name)) by {
            assert forall|i: int| 0 <= i < keys.len() implies keys[i] != desc[last].name by {}
        }
        lemma_single_identity_injection(keys, listed, prefix, var_no, next_resno, j);
        assert(prefix[j] == desc[j]);
    }
}

/// Where every declared column either bears no declared key name or is
/// already selected by the statement's target list, nothing is injected:
/// in particular, an identity column the list already holds is never
/// injected a second time.
pub proof fn lemma_nothing_to_inject(
    keys: Seq<Seq<char>>,
    listed: Seq<Seq<char>>,
    desc: Seq<ColumnDescView>,
    var_no: u32,
    next_resno: int,
)
    requires
        forall|i: int|
            0 <= i < desc.len() ==> (keys.contains(#[trigger] desc[i].name) ==> listed.contains(
                desc[i].name,
            )),
    ensures
        spec_injected(keys, listed, desc, var_no, next_resno) == Seq::<TargetEntryView>::empty(),
    decreases desc.len(),
{
    if desc.len() > 0 {
        let prefix = desc.drop_last();
        assert(forall|i: int| 0 <= i < prefix.len() ==> prefix[i] == #[trigger] desc[i]);
        lemma_nothing_to_inject(keys, listed, prefix, var_no, next_resno);
        assert(desc.last() == desc[desc.len() - 1]);
    }
}

/// For a well-formed session, the plugin's `execute` has been observed at
/// most once, however many iterate steps have run: the session invariant
/// pins the ghost call counter to the row cursor's presence.
pub proof fn lemma_execute_at_most_once<T: ForeignData>(s: FdwState<T>)
    requires
        s.wf(),
    ensures
        s.executes@ <= 1,
        s.executes@ == 1 <==> s.itr is Some,
{
}

} // verus!
