use sql_exec::array::DataTypeKind;
use sql_exec::plan::{
    BoundExpr, FileFormat, LogicalCopyFromFile, LogicalFilter, LogicalPlan, PhysicalCopyFromFile, PhysicalFilter,
    PhysicalPlan, PhysicalPlanError, PhysicalPlaner,
};

fn copy() -> LogicalPlan {
    LogicalPlan::CopyFromFile(LogicalCopyFromFile {
        path: "t.csv".to_string(),
        format: FileFormat::Csv { delimiter: ',', quote: '"', escape: None, header: false },
        column_types: vec![DataTypeKind::Int.not_null()],
    })
}

fn physical_copy() -> PhysicalPlan {
    PhysicalPlan::CopyFromFile(PhysicalCopyFromFile {
        path: "t.csv".to_string(),
        format: FileFormat::Csv { delimiter: ',', quote: '"', escape: None, header: false },
        column_types: vec![DataTypeKind::Int.not_null()],
    })
}

#[test]
fn filter_plans_to_filter_over_planned_child() {
    let logical = LogicalFilter { expr: BoundExpr::ColumnRef(0), child: Box::new(copy()) };
    let r = PhysicalPlaner.plan_filter(logical);
    assert_eq!(
        r,
        Ok(PhysicalPlan::Filter(PhysicalFilter { expr: BoundExpr::ColumnRef(0), child: Box::new(physical_copy()) }))
    );
}

#[test]
fn nested_filters_plan_recursively() {
    let inner = LogicalPlan::Filter(LogicalFilter { expr: BoundExpr::Constant(true), child: Box::new(LogicalPlan::Dummy) });
    let outer = LogicalPlan::Filter(LogicalFilter {
        expr: BoundExpr::Not(Box::new(BoundExpr::ColumnRef(1))),
        child: Box::new(inner),
    });
    let expected = PhysicalPlan::Filter(PhysicalFilter {
        expr: BoundExpr::Not(Box::new(BoundExpr::ColumnRef(1))),
        child: Box::new(PhysicalPlan::Filter(PhysicalFilter {
            expr: BoundExpr::Constant(true),
            child: Box::new(PhysicalPlan::Dummy),
        })),
    });
    assert_eq!(PhysicalPlaner.plan(outer), Ok(expected));
}

#[test]
fn unsupported_node_is_a_planning_error() {
    assert_eq!(PhysicalPlaner.plan(LogicalPlan::Explain(Box::new(copy()))), Err(PhysicalPlanError::InvalidLogicalPlan));
}

#[test]
fn failing_child_fails_the_filter() {
    let logical = LogicalFilter {
        expr: BoundExpr::Constant(false),
        child: Box::new(LogicalPlan::Explain(Box::new(LogicalPlan::Dummy))),
    };
    assert_eq!(PhysicalPlaner.plan_filter(logical), Err(PhysicalPlanError::InvalidLogicalPlan));
}

#[test]
fn copy_plans_to_copy() {
    assert_eq!(PhysicalPlaner.plan(copy()), Ok(physical_copy()));
}
