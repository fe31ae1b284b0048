use std::cell::Cell;

use pgx_fdw::adapter::FdwState;
use pgx_fdw::capability::{ForeignData, VecRows};
use pgx_fdw::options::FdwOptions;
use pgx_fdw::tuples::ColumnDesc;

/// A minimal plugin, enough to instantiate the adapter.
struct NullTable {
    touched: Cell<bool>,
}

impl ForeignData for NullTable {
    type Item = u64;
    type RowIterator = VecRows<u64>;

    fn begin(_options: &FdwOptions) -> Self {
        NullTable { touched: Cell::new(false) }
    }

    fn execute(&mut self, _desc: &Vec<ColumnDesc>) -> Self::RowIterator {
        self.touched.set(true);
        VecRows::new(Vec::new())
    }
}

#[test]
fn size_estimate_is_zero_rows() {
    assert_eq!(FdwState::<NullTable>::get_foreign_rel_size(), 0);
}

#[test]
fn one_fixed_cost_path_is_emitted() {
    let path = FdwState::<NullTable>::get_foreign_paths(0);
    assert_eq!(path.rows, 0);
    assert_eq!(path.startup_cost, 10);
    assert_eq!(path.total_cost, 0);
}

#[test]
fn plan_reuses_clauses_as_quals_and_private_exprs() {
    let plan = FdwState::<NullTable>::get_foreign_plan(42, vec![7, 8, 9]);
    assert_eq!(plan.scan_relid, 42);
    assert_eq!(plan.quals, vec![7, 8, 9]);
    assert_eq!(plan.fdw_exprs, vec![7, 8, 9]);
}

#[test]
fn dispatch_table_registers_exactly_the_implemented_entries() {
    let handler = FdwState::<NullTable>::into_datum();
    assert!(handler.get_foreign_rel_size);
    assert!(handler.get_foreign_paths);
    assert!(handler.get_foreign_plan);
    assert!(handler.begin_foreign_scan);
    assert!(handler.iterate_foreign_scan);
    assert!(handler.re_scan_foreign_scan);
    assert!(handler.end_foreign_scan);
    assert!(handler.add_foreign_update_targets);
    assert!(handler.begin_foreign_modify);
    assert!(handler.exec_foreign_insert);
    assert!(handler.exec_foreign_update);
    assert!(handler.exec_foreign_delete);
    assert!(handler.end_foreign_modify);
    assert!(!handler.end_foreign_insert);
    assert!(!handler.reparameterize_foreign_path_by_child);
    assert!(!handler.shutdown_foreign_scan);
    assert!(!handler.re_initialize_dsm_foreign_scan);
    assert!(!handler.get_foreign_join_paths);
    assert!(!handler.get_foreign_upper_paths);
    assert!(!handler.plan_foreign_modify);
    assert!(!handler.is_foreign_rel_updatable);
    assert!(!handler.plan_direct_modify);
    assert!(!handler.begin_direct_modify);
    assert!(!handler.iterate_direct_modify);
    assert!(!handler.end_direct_modify);
    assert!(!handler.get_foreign_row_mark_type);
    assert!(!handler.refetch_foreign_row);
    assert!(!handler.recheck_foreign_scan);
    assert!(!handler.explain_foreign_scan);
    assert!(!handler.explain_foreign_modify);
    assert!(!handler.explain_direct_modify);
    assert!(!handler.analyze_foreign_table);
    assert!(!handler.import_foreign_schema);
    assert!(!handler.is_foreign_scan_parallel_safe);
    assert!(!handler.estimate_dsm_foreign_scan);
    assert!(!handler.initialize_dsm_foreign_scan);
    assert!(!handler.initialize_worker_foreign_scan);
}

#[test]
fn empty_table_scans_to_an_immediate_end() {
    let desc: Vec<ColumnDesc> = Vec::new();
    let mut session = FdwState::<NullTable>::begin_foreign_scan(&FdwOptions {
        server_opts: FdwOptions::from_pg_list(None),
        table_opts: FdwOptions::from_pg_list(None),
        table_name: "empty".to_string(),
        table_namespace: "public".to_string(),
    });
    assert!(session.iterate_foreign_scan(&desc).is_none());
    assert!(session.state.touched.get());
    assert!(session.iterate_foreign_scan(&desc).is_none());
}
