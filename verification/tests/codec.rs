use pgx_fdw::codec::{decode_slot, encode_cells, SlotData};
use pgx_fdw::tuples::ColumnDesc;

const TEXT: u32 = 25;

fn column(name: &str, att_num: i16) -> ColumnDesc {
    ColumnDesc {
        name: name.to_string(),
        type_oid: TEXT,
        att_num,
        type_mod: -1,
        collation: 100,
    }
}

fn users_desc() -> Vec<ColumnDesc> {
    vec![column("id", 1), column("name", 2), column("email", 3)]
}

#[test]
fn decode_reads_one_tuple_per_column() {
    let desc = users_desc();
    let slot = SlotData { values: vec![11, 22, 33], nulls: vec![false, true, false] };
    let tuples = decode_slot(&desc, &slot);
    assert_eq!(tuples.len(), 3);
    assert_eq!(tuples[0].name, "id");
    assert_eq!(tuples[0].value, Some(11));
    assert_eq!(tuples[0].type_tag, TEXT);
    assert_eq!(tuples[1].name, "name");
    assert_eq!(tuples[1].value, None);
    assert_eq!(tuples[2].name, "email");
    assert_eq!(tuples[2].value, Some(33));
}

#[test]
fn decode_ignores_entries_beyond_declared_columns() {
    let desc = vec![column("id", 1)];
    let slot = SlotData { values: vec![7, 99], nulls: vec![false, false] };
    let tuples = decode_slot(&desc, &slot);
    assert_eq!(tuples.len(), 1);
    assert_eq!(tuples[0].value, Some(7));
}

#[test]
fn encode_fills_supplied_and_clears_the_rest() {
    let desc = users_desc();
    let cells = vec![Some(7), None];
    let row = encode_cells(&desc, &cells);
    assert_eq!(row.values, vec![7, 0, 0]);
    assert_eq!(row.nulls, vec![false, true, true]);
}

#[test]
fn encode_empty_row_is_all_nulls() {
    let desc = users_desc();
    let row = encode_cells(&desc, &Vec::new());
    assert_eq!(row.values, vec![0, 0, 0]);
    assert_eq!(row.nulls, vec![true, true, true]);
}

#[test]
fn encode_then_decode_round_trips_supplied_values() {
    let desc = users_desc();
    let cells = vec![Some(41), None];
    let encoded = encode_cells(&desc, &cells);
    let slot = SlotData { values: encoded.values, nulls: encoded.nulls };
    let tuples = decode_slot(&desc, &slot);
    assert_eq!(tuples.len(), 3);
    // Every supplied cell comes back exactly, an explicit absence included.
    assert_eq!(tuples[0].value, Some(41));
    assert_eq!(tuples[1].value, None);
    // The omitted trailing column decodes as null.
    assert_eq!(tuples[2].value, None);
    // Names and type tags come from the descriptors throughout.
    assert_eq!(tuples[0].name, "id");
    assert_eq!(tuples[1].name, "name");
    assert_eq!(tuples[2].name, "email");
    assert!(tuples.iter().all(|t| t.type_tag == TEXT));
}
