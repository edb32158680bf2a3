use vstd::prelude::*;
use crate::array::DataType;

verus! {

/// A resolved boolean expression, as the binder hands it over.
#[derive(Debug, PartialEq)]
pub enum BoundExpr {
    Constant(bool),
    ColumnRef(usize),
    Not(Box<BoundExpr>),
}

/// The format of a file to load.
#[derive(Debug, Clone, Copy, PartialEq, Eq)]
pub enum FileFormat {
    Csv { delimiter: char, quote: char, escape: Option<char>, header: bool },
}

/// Logical `COPY ... FROM file`.
#[derive(Debug, PartialEq)]
pub struct LogicalCopyFromFile {
    pub path: String,
    pub format: FileFormat,
    pub column_types: Vec<DataType>,
}

/// Logical filter: the rows of `child` that satisfy `expr`.
#[derive(Debug, PartialEq)]
pub struct LogicalFilter {
    pub expr: BoundExpr,
    pub child: Box<LogicalPlan>,
}

/// The logical plan nodes that reach the physical planner.
#[derive(Debug, PartialEq)]
pub enum LogicalPlan {
    Dummy,
    CopyFromFile(LogicalCopyFromFile),
    Filter(LogicalFilter),
    /// Describes its child instead of running it; it has no physical form.
    Explain(Box<LogicalPlan>),
}

/// Physical `COPY ... FROM file`.
#[derive(Debug, PartialEq)]
pub struct PhysicalCopyFromFile {
    pub path: String,
    pub format: FileFormat,
    pub column_types: Vec<DataType>,
}

/// Physical filter over an owned child plan.
#[derive(Debug, PartialEq)]
pub struct PhysicalFilter {
    pub expr: BoundExpr,
    pub child: Box<PhysicalPlan>,
}

#[derive(Debug, PartialEq)]
pub enum PhysicalPlan {
    Dummy,
    CopyFromFile(PhysicalCopyFromFile),
    Filter(PhysicalFilter),
}

#[derive(Debug, Clone, Copy, PartialEq, Eq, Structural)]
pub enum PhysicalPlanError {
    /// The logical plan holds a node that has no physical form.
    InvalidLogicalPlan,
}

/// The physical plan that a logical plan lowers to, or the planning error.
pub open spec fn lowered(plan: LogicalPlan) -> Result<PhysicalPlan, PhysicalPlanError>
    decreases plan,
{
    match plan {
        LogicalPlan::Dummy => Ok(PhysicalPlan::Dummy),
        LogicalPlan::CopyFromFile(c) => Ok(
            PhysicalPlan::CopyFromFile(
                PhysicalCopyFromFile { path: c.path, format: c.format, column_types: c.column_types },
            ),
        ),
        LogicalPlan::Filter(f) => match lowered(*f.child) {
            Ok(child) => Ok(PhysicalPlan::Filter(PhysicalFilter { expr: f.expr, child: Box::new(child) })),
            Err(e) => Err(e),
        },
        LogicalPlan::Explain(_) => Err(PhysicalPlanError::InvalidLogicalPlan),
    }
}

/// Lowers logical plans into physical ones; it keeps no state between calls.
#[derive(Debug, Clone, Copy, PartialEq, Eq, Structural)]
pub struct PhysicalPlaner;

impl PhysicalPlaner {
    pub fn plan(&self, plan: LogicalPlan) -> (r: Result<PhysicalPlan, PhysicalPlanError>)
        ensures
            r == lowered(plan),
        decreases plan,
    {
        match plan {
            LogicalPlan::Dummy => Ok(PhysicalPlan::Dummy),
            LogicalPlan::CopyFromFile(c) => Ok(
                PhysicalPlan::CopyFromFile(
                    PhysicalCopyFromFile { path: c.path, format: c.format, column_types: c.column_types },
                ),
            ),
            LogicalPlan::Filter(f) => self.plan_filter(f),
            LogicalPlan::Explain(_) => Err(PhysicalPlanError::InvalidLogicalPlan),
        }
    }

    /// Lowers the child first; a failing child fails the filter with the same error.
    pub fn plan_filter(&self, plan: LogicalFilter) -> (r: Result<PhysicalPlan, PhysicalPlanError>)
        ensures
            r == lowered(LogicalPlan::Filter(plan)),
        decreases plan,
    {
        let expr = plan.expr;
        let child = self.plan(*plan.child)?;
        Ok(PhysicalPlan::Filter(PhysicalFilter { expr, child: Box::new(child) }))
    }
}

/// Planning a filter gives a physical filter with the same expression over the
/// planned child, exactly when the child plans.
pub proof fn lemma_filter_lowers_to_filter(f: LogicalFilter)
    ensures
        lowered(*f.child) is Ok <==> lowered(LogicalPlan::Filter(f)) is Ok,
        lowered(*f.child) matches Ok(child) ==> lowered(LogicalPlan::Filter(f)) == Ok::<
            PhysicalPlan,
            PhysicalPlanError,
        >(PhysicalPlan::Filter(PhysicalFilter { expr: f.expr, child: Box::new(child) })),
{
}

/// A child that fails to plan fails its parent filter with the same error,
/// and no physical node comes out.
pub proof fn lemma_child_failure_propagates(f: LogicalFilter)
    ensures
        lowered(*f.child) matches Err(e) ==> lowered(LogicalPlan::Filter(f)) == Err::<
            PhysicalPlan,
            PhysicalPlanError,
        >(e),
{
}

} // verus!
