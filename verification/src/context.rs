use vstd::prelude::*;

verus! {

/// Per-build execution context: metadata and aliasing policy selected once
/// for a query build. This layer threads it through every render call
/// unmodified and never reads it.
pub struct QueryTools {
    pub alias_prefix: String,
}

/// Dialect-specific syntax fragments, selected once per build for the
/// target SQL dialect, threaded through every render call unmodified.
/// The quoting decorator reads the identifier quote from here.
pub struct PlanSqlTemplates {
    pub identifier_quote: String,
}

/// Handle of the traversal that walks the member graph and invokes the
/// dispatcher at each node. The traversal itself is outside this layer;
/// strategies receive the handle and pass it along unchanged.
pub struct SqlEvaluatorVisitor {
    pub depth: u64,
}

} // verus!
