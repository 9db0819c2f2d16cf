//! Kind-based dispatch of SQL rendering strategies.
//!
//! A query build resolves its members into a graph of symbols (dimensions,
//! time dimensions, measures, cube names, cube tables). Turning one symbol
//! into dialect-specific SQL text is the job of a rendering strategy; the
//! root dispatcher holds one strategy per explicit symbol kind plus a
//! default fallback, and routes every render call to exactly one of them.

pub mod context;
pub mod error;
pub mod laws;
pub mod sql_nodes;
pub mod symbol;

pub use context::PlanSqlTemplates;
pub use context::QueryTools;
pub use context::SqlEvaluatorVisitor;
pub use error::GenerationError;
pub use sql_nodes::RootSqlNode;
pub use sql_nodes::SqlNode;
pub use symbol::MemberSymbol;
pub use symbol::SymbolKind;
