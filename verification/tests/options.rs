use pgx_fdw::options::{FdwOptions, Relation};

fn pair(k: &str, v: &str) -> (String, String) {
    (k.to_string(), v.to_string())
}

#[test]
fn absent_list_yields_empty_mapping() {
    let opts = FdwOptions::from_pg_list(None);
    assert!(opts.get(&"anything".to_string()).is_none());
    assert!(!opts.contains_key(&"host".to_string()));
}

#[test]
fn empty_list_yields_empty_mapping() {
    let opts = FdwOptions::from_pg_list(Some(Vec::new()));
    assert!(opts.get(&"host".to_string()).is_none());
}

#[test]
fn present_pairs_are_looked_up() {
    let opts = FdwOptions::from_pg_list(Some(vec![pair("host", "h1"), pair("port", "5432")]));
    assert_eq!(opts.get(&"host".to_string()), Some(&"h1".to_string()));
    assert_eq!(opts.get(&"port".to_string()), Some(&"5432".to_string()));
    assert!(opts.get(&"user".to_string()).is_none());
}

#[test]
fn duplicate_keys_resolve_last_write_wins() {
    let opts = FdwOptions::from_pg_list(Some(vec![
        pair("k", "first"),
        pair("other", "x"),
        pair("k", "second"),
        pair("k", "third"),
    ]));
    assert_eq!(opts.get(&"k".to_string()), Some(&"third".to_string()));
    assert_eq!(opts.get(&"other".to_string()), Some(&"x".to_string()));
}

#[test]
fn from_relation_matches_both_option_lists() {
    let relation = Relation {
        table_name: "users".to_string(),
        table_namespace: "public".to_string(),
        server_options: Some(vec![pair("address", "localhost"), pair("port", "4000")]),
        table_options: Some(vec![pair("table_option", "1"), pair("table_option2", "2")]),
        columns: Vec::new(),
    };
    let opts = FdwOptions::from_relation(&relation);
    assert_eq!(opts.table_name, "users");
    assert_eq!(opts.table_namespace, "public");
    assert_eq!(opts.server_opts.get(&"address".to_string()), Some(&"localhost".to_string()));
    assert_eq!(opts.server_opts.get(&"port".to_string()), Some(&"4000".to_string()));
    assert!(opts.server_opts.get(&"table_option".to_string()).is_none());
    assert_eq!(opts.table_opts.get(&"table_option".to_string()), Some(&"1".to_string()));
    assert_eq!(opts.table_opts.get(&"table_option2".to_string()), Some(&"2".to_string()));
    assert!(opts.table_opts.get(&"address".to_string()).is_none());
}

#[test]
fn from_relation_with_absent_lists() {
    let relation = Relation {
        table_name: "t".to_string(),
        table_namespace: "ns".to_string(),
        server_options: None,
        table_options: None,
        columns: Vec::new(),
    };
    let opts = FdwOptions::from_relation(&relation);
    assert!(opts.server_opts.get(&"a".to_string()).is_none());
    assert!(opts.table_opts.get(&"a".to_string()).is_none());
}
