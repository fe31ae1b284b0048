//! The option catalog reader: key/value configuration attached to a foreign
//! server and a foreign table, extracted from catalog metadata into plain
//! mappings plus the table's identity.

use vstd::prelude::*;

use crate::tuples::ColumnDesc;

verus! {

/// The mathematical content of a key/value option list: each pair inserted
/// in order, so that a key repeated later in the list overrides an earlier
/// occurrence (last write wins).
pub open spec fn map_of_pairs(pairs: Seq<(String, String)>) -> Map<Seq<char>, Seq<char>>
    decreases pairs.len(),
{
    if pairs.len() == 0 {
        Map::empty()
    } else {
        map_of_pairs(pairs.drop_last()).insert(pairs.last().0@, pairs.last().1@)
    }
}

/// The position of the last pair carrying the key, or a negative value where
/// the key never occurs.
pub open spec fn last_index_of_key(pairs: Seq<(String, String)>, k: Seq<char>) -> int
    decreases pairs.len(),
{
    if pairs.len() == 0 {
        -1
    } else if pairs.last().0@ == k {
        pairs.len() - 1
    } else {
        last_index_of_key(pairs.drop_last(), k)
    }
}

/// The mapping an option list builds holds exactly the keys that occur in
/// the list, and carries each key to the value of its last occurrence.
pub proof fn lemma_map_of_pairs_last_write_wins(pairs: Seq<(String, String)>, k: Seq<char>)
    ensures
        map_of_pairs(pairs).contains_key(k) <==> last_index_of_key(pairs, k) >= 0,
        last_index_of_key(pairs, k) >= 0 ==> {
            let i = last_index_of_key(pairs, k);
            &&& i < pairs.len()
            &&& pairs[i].0@ == k
            &&& map_of_pairs(pairs)[k] == pairs[i].1@
            &&& forall|j: int| i < j < pairs.len() ==> #[trigger] pairs[j].0@ != k
        },
        last_index_of_key(pairs, k) < 0 ==> forall|j: int|
            0 <= j < pairs.len() ==> #[trigger] pairs[j].0@ != k,
    decreases pairs.len(),
{
    if pairs.len() > 0 {
        let prefix = pairs.drop_last();
        let last = pairs.len() - 1;
        lemma_map_of_pairs_last_write_wins(prefix, k);
        assert(pairs.last() == pairs[last]);
        assert(map_of_pairs(pairs) == map_of_pairs(prefix).insert(pairs[last].0@, pairs[last].1@));
        if pairs[last].0@ == k {
            assert(last_index_of_key(pairs, k) == last);
            assert(map_of_pairs(pairs)[k] == pairs[last].1@);
        } else {
            assert(last_index_of_key(pairs, k) == last_index_of_key(prefix, k));
            let li = last_index_of_key(prefix, k);
            if li >= 0 {
                assert(prefix[li] == pairs[li]);
                assert(map_of_pairs(prefix)[k] == prefix[li].1@);
                assert forall|j: int| li < j < pairs.len() implies #[trigger] pairs[j].0@ != k by {
                    if j < last {
                        assert(prefix[j] == pairs[j]);
                        assert(prefix[j].0@ != k);
                    }
                }
            } else {
                assert forall|j: int| 0 <= j < pairs.len() implies #[trigger] pairs[j].0@ != k by {
                    if j < last {
                        assert(prefix[j] == pairs[j]);
                        assert(prefix[j].0@ != k);
                    }
                }
            }
        }
    }
}

/// A key/value option mapping read from one catalog option list. The pairs
/// are kept as the catalog delivered them; lookups resolve a repeated key to
/// its last occurrence, matching the mapping [`map_of_pairs`] builds.
pub struct FdwOption {
    entries: Vec<(String, String)>,
}

impl View for FdwOption {
    type V = Map<Seq<char>, Seq<char>>;

    closed spec fn view(&self) -> Map<Seq<char>, Seq<char>> {
        map_of_pairs(self.entries@)
    }
}

impl FdwOption {
    /// An empty mapping, as an absent option list yields.
    pub fn empty() -> (r: Self)
        ensures
            r@ == Map::<Seq<char>, Seq<char>>::empty(),
    {
        FdwOption { entries: Vec::new() }
    }

    /// Builds the mapping of a present option list, pair by pair.
    pub fn from_pairs(pairs: Vec<(String, String)>) -> (r: Self)
        ensures
            r@ == map_of_pairs(pairs@),
    {
        FdwOption { entries: pairs }
    }

    /// Looks a key up, resolving duplicates to the latest pair.
    pub fn get(&self, key: &String) -> (r: Option<&String>)
        ensures
            match r {
                Some(v) => self@.contains_key(key@) && v@ == self@[key@],
                None => !self@.contains_key(key@),
            },
    {
        let mut i: usize = self.entries.len();
        while i > 0
            invariant
                i <= self.entries@.len(),
                forall|j: int|
                    i <= j < self.entries@.len() ==> #[trigger] self.entries@[j].0@ != key@,
            decreases i,
        {
            i = i - 1;
            if self.entries[i].0.eq(key) {
                proof {
                    let s = self.entries@;
                    lemma_map_of_pairs_last_write_wins(s, key@);
                    let li = last_index_of_key(s, key@);
                    assert(s[i as int].0@ == key@);
                    if li < 0 {
                        assert(s[i as int].0@ != key@);
                    }
                    if 0 <= li < i {
                        assert(s[i as int].0@ != key@);
                    }
                    if li > i {
                        assert(s[li].0@ != key@);
                    }
                    assert(li == i);
                }
                return Some(&self.entries[i].1);
            }
        }
        proof {
            let s = self.entries@;
            lemma_map_of_pairs_last_write_wins(s, key@);
            let li = last_index_of_key(s, key@);
            if li >= 0 {
                assert(s[li].0@ != key@);
            }
        }
        None
    }

    /// Whether the mapping holds the key at all.
    pub fn contains_key(&self, key: &String) -> (r: bool)
        ensures
            r == self@.contains_key(key@),
    {
        self.get(key).is_some()
    }
}

/// What the adapter reads from a relation's catalog records: the table's
/// name and namespace, the option lists attached to the foreign table and
/// its foreign server (absent when the catalog stores no list), and the
/// declared columns in declaration order.
pub struct Relation {
    pub table_name: String,
    pub table_namespace: String,
    pub server_options: Option<Vec<(String, String)>>,
    pub table_options: Option<Vec<(String, String)>>,
    pub columns: Vec<ColumnDesc>,
}

/// Per-session configuration: the server and table option mappings plus the
/// table's identity, built once per session from catalog metadata and
/// read-only afterwards.
pub struct FdwOptions {
    pub server_opts: FdwOption,
    pub table_opts: FdwOption,
    pub table_name: String,
    pub table_namespace: String,
}

/// The mapping an option list yields: its pairs with last write wins, or the
/// empty mapping where the catalog stores no list at all.
pub open spec fn spec_list_options(list: Option<Vec<(String, String)>>) -> Map<
    Seq<char>,
    Seq<char>,
> {
    match list {
        Some(pairs) => map_of_pairs(pairs@),
        None => Map::empty(),
    }
}

impl FdwOptions {
    /// Builds one option list's mapping; an absent list yields an empty
    /// mapping, never an error.
    pub fn from_pg_list(opts: Option<Vec<(String, String)>>) -> (r: FdwOption)
        ensures
            r@ == spec_list_options(opts),
    {
        match opts {
            Some(pairs) => FdwOption::from_pairs(pairs),
            None => FdwOption::empty(),
        }
    }

    /// Resolves a session's configuration from the relation's catalog
    /// records: the server and table option mappings (each pair list with
    /// last write wins, an absent list as an empty mapping) and the table's
    /// name and namespace.
    pub fn from_relation(relation: &Relation) -> (r: Self)
        ensures
            r.server_opts@ == spec_list_options(relation.server_options),
            r.table_opts@ == spec_list_options(relation.table_options),
            r.table_name@ == relation.table_name@,
            r.table_namespace@ == relation.table_namespace@,
    {
        let server_options = clone_pair_list(&relation.server_options);
        let table_options = clone_pair_list(&relation.table_options);
        FdwOptions {
            server_opts: Self::from_pg_list(server_options),
            table_opts: Self::from_pg_list(table_options),
            table_name: relation.table_name.clone(),
            table_namespace: relation.table_namespace.clone(),
        }
    }
}

/// Copies an optional option list so that the relation record stays intact.
fn clone_pair_list(list: &Option<Vec<(String, String)>>) -> (r: Option<Vec<(String, String)>>)
    ensures
        list is Some <==> r is Some,
        list matches Some(orig) ==> (r matches Some(pairs) && pairs@ == orig@),
{
    match list {
        Some(pairs) => {
            let mut copy: Vec<(String, String)> = Vec::new();
            let mut i: usize = 0;
            while i < pairs.len()
                invariant
                    i <= pairs@.len(),
                    copy@ =~= pairs@.take(i as int),
                decreases pairs@.len() - i,
            {
                let pair = (pairs[i].0.clone(), pairs[i].1.clone());
                assert(pair == pairs@[i as int]);
                copy.push(pair);
                i = i + 1;
            }
            proof {
                assert(copy@ =~= pairs@);
            }
            Some(copy)
        },
        None => None,
    }
}

} // verus!
