//! The planning stubs and the vtable builder: the scan-planning entry
//! points report deliberately fixed estimates and a single fixed-cost
//! access path (cardinality estimation and alternative strategies are
//! non-goals), and the builder assembles the host's dispatch table with
//! exactly the implemented entry points registered.

use vstd::prelude::*;

use crate::adapter::FdwState;
use crate::capability::ForeignData;

verus! {

/// The one access path the planner is offered for a foreign table: the
/// relation's current row estimate under fixed startup and total costs.
pub struct AccessPath {
    pub rows: u64,
    pub startup_cost: u64,
    pub total_cost: u64,
}

/// The scan plan the planner finalizes: which relation to scan, the
/// restriction clauses as the plan's filter quals, and the same clauses
/// handed to the scan node once more as its wrapper-private expression
/// list; the recheck-quals slot of the node is left empty.
pub struct ScanPlan {
    pub scan_relid: u32,
    pub quals: Vec<u64>,
    pub fdw_exprs: Vec<u64>,
}

/// The host's table-access dispatch table, entry by entry: a flag per
/// protocol entry point, set exactly where this adapter registers a
/// callback and clear where the entry point is left absent for the host's
/// fallback.
pub struct FdwRoutine {
    pub get_foreign_rel_size: bool,
    pub get_foreign_paths: bool,
    pub get_foreign_plan: bool,
    pub begin_foreign_scan: bool,
    pub iterate_foreign_scan: bool,
    pub re_scan_foreign_scan: bool,
    pub end_foreign_scan: bool,
    pub end_foreign_insert: bool,
    pub reparameterize_foreign_path_by_child: bool,
    pub shutdown_foreign_scan: bool,
    pub re_initialize_dsm_foreign_scan: bool,
    pub get_foreign_join_paths: bool,
    pub get_foreign_upper_paths: bool,
    pub add_foreign_update_targets: bool,
    pub plan_foreign_modify: bool,
    pub begin_foreign_modify: bool,
    pub exec_foreign_insert: bool,
    pub exec_foreign_update: bool,
    pub exec_foreign_delete: bool,
    pub end_foreign_modify: bool,
    pub is_foreign_rel_updatable: bool,
    pub plan_direct_modify: bool,
    pub begin_direct_modify: bool,
    pub iterate_direct_modify: bool,
    pub end_direct_modify: bool,
    pub get_foreign_row_mark_type: bool,
    pub refetch_foreign_row: bool,
    pub recheck_foreign_scan: bool,
    pub explain_foreign_scan: bool,
    pub explain_foreign_modify: bool,
    pub explain_direct_modify: bool,
    pub analyze_foreign_table: bool,
    pub import_foreign_schema: bool,
    pub is_foreign_scan_parallel_safe: bool,
    pub estimate_dsm_foreign_scan: bool,
    pub initialize_dsm_foreign_scan: bool,
    pub initialize_worker_foreign_scan: bool,
}

impl<T: ForeignData> FdwState<T> {
    /// The planner's size estimate for a foreign table: a constant zero
    /// rows, cardinality estimation being a deliberate non-goal.
    pub fn get_foreign_rel_size() -> (rows: u64)
        ensures
            rows == 0,
    {
        0
    }

    /// Emits the single access path offered for a scan: the relation's
    /// row estimate under a fixed startup cost of ten and a fixed total
    /// cost of zero; no alternative strategy is considered.
    pub fn get_foreign_paths(rows: u64) -> (path: AccessPath)
        ensures
            path.rows == rows,
            path.startup_cost == 10,
            path.total_cost == 0,
    {
        AccessPath { rows, startup_cost: 10, total_cost: 0 }
    }

    /// Finalizes the scan plan for the chosen path: the scan targets the
    /// given relation, and the statement's restriction clauses serve both
    /// as the plan's quals and, duplicated, as the scan node's
    /// wrapper-private expression list.
    pub fn get_foreign_plan(scan_relid: u32, scan_clauses: Vec<u64>) -> (plan: ScanPlan)
        ensures
            plan.scan_relid == scan_relid,
            plan.quals@ == scan_clauses@,
            plan.fdw_exprs@ == scan_clauses@,
    {
        let mut fdw_exprs: Vec<u64> = Vec::new();
        let mut i: usize = 0;
        while i < scan_clauses.len()
            invariant
                i <= scan_clauses@.len(),
                fdw_exprs@ =~= scan_clauses@.take(i as int),
            decreases scan_clauses@.len() - i,
        {
            fdw_exprs.push(scan_clauses[i]);
            i = i + 1;
        }
        proof {
            assert(fdw_exprs@ =~= scan_clauses@);
        }
        ScanPlan { scan_relid, quals: scan_clauses, fdw_exprs }
    }

    /// Assembles the dispatch table: the scan lifecycle, the modify-target
    /// step and the modify lifecycle are registered; every pushdown,
    /// direct-modify, parallel-scan, explain, analyze and schema-import
    /// entry point is left absent, so the host falls back to not offering
    /// that feature for the table.
    pub fn into_datum() -> (handler: FdwRoutine)
        ensures
            handler.get_foreign_rel_size,
            handler.get_foreign_paths,
            handler.get_foreign_plan,
            handler.begin_foreign_scan,
            handler.iterate_foreign_scan,
            handler.re_scan_foreign_scan,
            handler.end_foreign_scan,
            handler.add_foreign_update_targets,
            handler.begin_foreign_modify,
            handler.exec_foreign_insert,
            handler.exec_foreign_update,
            handler.exec_foreign_delete,
            handler.end_foreign_modify,
            !handler.end_foreign_insert,
            !handler.reparameterize_foreign_path_by_child,
            !handler.shutdown_foreign_scan,
            !handler.re_initialize_dsm_foreign_scan,
            !handler.get_foreign_join_paths,
            !handler.get_foreign_upper_paths,
            !handler.plan_foreign_modify,
            !handler.is_foreign_rel_updatable,
            !handler.plan_direct_modify,
            !handler.begin_direct_modify,
            !handler.iterate_direct_modify,
            !handler.end_direct_modify,
            !handler.get_foreign_row_mark_type,
            !handler.refetch_foreign_row,
            !handler.recheck_foreign_scan,
            !handler.explain_foreign_scan,
            !handler.explain_foreign_modify,
            !handler.explain_direct_modify,
            !handler.analyze_foreign_table,
            !handler.import_foreign_schema,
            !handler.is_foreign_scan_parallel_safe,
            !handler.estimate_dsm_foreign_scan,
            !handler.initialize_dsm_foreign_scan,
            !handler.initialize_worker_foreign_scan,
    {
        FdwRoutine {
            get_foreign_rel_size: true,
            get_foreign_paths: true,
            get_foreign_plan: true,
            begin_foreign_scan: true,
            iterate_foreign_scan: true,
            re_scan_foreign_scan: true,
            end_foreign_scan: true,
            end_foreign_insert: false,
            reparameterize_foreign_path_by_child: false,
            shutdown_foreign_scan: false,
            re_initialize_dsm_foreign_scan: false,
            get_foreign_join_paths: false,
            get_foreign_upper_paths: false,
            add_foreign_update_targets: true,
            plan_foreign_modify: false,
            begin_foreign_modify: true,
            exec_foreign_insert: true,
            exec_foreign_update: true,
            exec_foreign_delete: true,
            end_foreign_modify: true,
            is_foreign_rel_updatable: false,
            plan_direct_modify: false,
            begin_direct_modify: false,
            iterate_direct_modify: false,
            end_direct_modify: false,
            get_foreign_row_mark_type: false,
            refetch_foreign_row: false,
            recheck_foreign_scan: false,
            explain_foreign_scan: false,
            explain_foreign_modify: false,
            explain_direct_modify: false,
            analyze_foreign_table: false,
            import_foreign_schema: false,
            is_foreign_scan_parallel_safe: false,
            estimate_dsm_foreign_scan: false,
            initialize_dsm_foreign_scan: false,
            initialize_worker_foreign_scan: false,
        }
    }
}

} // verus!
