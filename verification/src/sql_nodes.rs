use std::rc::Rc;
use vstd::prelude::*;

use crate::context::PlanSqlTemplates;
use crate::context::QueryTools;
use crate::context::SqlEvaluatorVisitor;
use crate::error::GenerationError;
use crate::symbol::MemberSymbol;
use crate::symbol::SymbolKind;

verus! {

/// A rendering strategy for member symbols: the closed set of node shapes a
/// query build composes its rendering pipeline from. A strategy may render
/// directly, decorate the result of an inner strategy, or forward to the
/// caller-supplied next strategy, so chains of decorators can be built
/// without any strategy knowing its place in the chain.
pub enum SqlNode {
    /// Terminal renderer that always produces the given SQL text.
    FixedSql(String),
    /// Terminal renderer that produces the symbol's full name.
    MemberName,
    /// Strategy that cannot render anything: it fails every call with a
    /// generation error carrying the given message.
    Failing(String),
    /// Decorator: renders the inner strategy, then wraps the produced text
    /// in the identifier quotes of the active dialect templates.
    QuotedIdentifier(Box<SqlNode>),
    /// Forwarder: hands the whole render call to the caller-supplied next
    /// strategy, consuming the continuation.
    PassThrough,
    /// Terminal renderer that produces no text; also the continuation a
    /// forwarder leaves behind once it has been consumed.
    EmptySql,
    /// A whole dispatcher used as a strategy, so dispatchers can stand
    /// inside decorator chains just like any other node.
    Dispatcher(Rc<RootSqlNode>),
}

/// The root dispatcher: holds exactly six strategies, one per explicitly
/// dispatched symbol kind plus a default fallback, fixed at construction
/// and read-only for the rest of the query build. Its only job is to route
/// each render call, with identical arguments, to the strategy matching the
/// symbol's kind.
pub struct RootSqlNode {
    pub dimension_processor: SqlNode,
    pub time_dimension_processor: SqlNode,
    pub measure_processor: SqlNode,
    pub cube_name_processor: SqlNode,
    pub cube_table_processor: SqlNode,
    pub default_processor: SqlNode,
}

/// Structural size of a strategy node, the termination measure for
/// rendering: every recursive render step moves to a strictly smaller node.
pub open spec fn node_size(node: SqlNode) -> nat
    decreases node,
{
    match node {
        SqlNode::QuotedIdentifier(inner) => 1 + node_size(*inner),
        SqlNode::PassThrough => 1,
        SqlNode::Dispatcher(dispatcher) => 1 + root_size(*dispatcher),
        _ => 0,
    }
}

/// Structural size of a dispatcher: larger than each of the six strategies
/// it holds.
pub open spec fn root_size(dispatcher: RootSqlNode) -> nat
    decreases dispatcher,
{
    1 + node_size(dispatcher.dimension_processor) + node_size(dispatcher.time_dimension_processor)
        + node_size(dispatcher.measure_processor) + node_size(dispatcher.cube_name_processor)
        + node_size(dispatcher.cube_table_processor) + node_size(dispatcher.default_processor)
}

/// The mathematical value of a render result: the produced SQL text, or the
/// message of the generation error.
pub open spec fn sql_result_view(r: Result<String, GenerationError>) -> Result<Seq<char>, Seq<char>> {
    match r {
        Ok(text) => Ok(text@),
        Err(e) => Err(e@),
    }
}

/// What a strategy renders for a symbol: the single definition every
/// executable render call is proved against. Rendering is a function of the
/// strategy, the symbol, the per-build context, the caller-supplied next
/// strategy and the dialect templates, and of nothing else.
pub open spec fn render_spec(
    node: SqlNode,
    symbol: MemberSymbol,
    tools: QueryTools,
    next: SqlNode,
    templates: PlanSqlTemplates,
) -> Result<Seq<char>, Seq<char>>
    decreases node_size(node) + node_size(next),
{
    match node {
        SqlNode::FixedSql(text) => Ok(text@),
        SqlNode::MemberName => Ok(symbol.name_spec()),
        SqlNode::Failing(message) => Err(message@),
        SqlNode::QuotedIdentifier(inner) => match render_spec(*inner, symbol, tools, next, templates) {
            Ok(text) => Ok(templates.identifier_quote@ + text + templates.identifier_quote@),
            Err(e) => Err(e),
        },
        SqlNode::PassThrough => render_spec(next, symbol, tools, SqlNode::EmptySql, templates),
        SqlNode::EmptySql => Ok(Seq::empty()),
        SqlNode::Dispatcher(dispatcher) => (*dispatcher).dispatch_spec(symbol, tools, next, templates),
    }
}

impl SqlNode {
    /// Render this strategy for one symbol. The context, the continuation
    /// and the templates are threaded through unchanged; the result is
    /// exactly what `render_spec` says, so repeated calls with the same
    /// arguments produce the same output.
    pub fn to_sql(
        &self,
        visitor: &SqlEvaluatorVisitor,
        node: &MemberSymbol,
        query_tools: &QueryTools,
        node_processor: &SqlNode,
        templates: &PlanSqlTemplates,
    ) -> (r: Result<String, GenerationError>)
        ensures
            sql_result_view(r) == render_spec(*self, *node, *query_tools, *node_processor, *templates),
        decreases node_size(*self) + node_size(*node_processor),
    {
        match self {
            SqlNode::FixedSql(text) => Ok(text.clone()),
            SqlNode::MemberName => Ok(node.full_name().clone()),
            SqlNode::Failing(message) => Err(GenerationError::new(message.clone())),
            SqlNode::QuotedIdentifier(inner) => {
                match inner.to_sql(visitor, node, query_tools, node_processor, templates) {
                    Ok(text) => {
                        let quoted = templates
                            .identifier_quote
                            .clone()
                            .concat(text.as_str())
                            .concat(templates.identifier_quote.as_str());
                        Ok(quoted)
                    },
                    Err(e) => Err(e),
                }
            },
            SqlNode::PassThrough => {
                let stop = SqlNode::EmptySql;
                node_processor.to_sql(visitor, node, query_tools, &stop, templates)
            },
            SqlNode::EmptySql => Ok(String::new()),
            SqlNode::Dispatcher(dispatcher) => dispatcher.to_sql(
                visitor,
                node,
                query_tools,
                node_processor,
                templates,
            ),
        }
    }
}

impl RootSqlNode {
    /// The strategy this dispatcher routes a symbol kind to: one of the five
    /// explicit processors, or the default processor for every other kind.
    /// Selection depends on the kind alone.
    pub open spec fn selected(self, kind: SymbolKind) -> SqlNode {
        match kind {
            SymbolKind::Dimension => self.dimension_processor,
            SymbolKind::TimeDimension => self.time_dimension_processor,
            SymbolKind::Measure => self.measure_processor,
            SymbolKind::CubeName => self.cube_name_processor,
            SymbolKind::CubeTable => self.cube_table_processor,
            SymbolKind::Other => self.default_processor,
        }
    }

    /// What dispatching a symbol renders: exactly what the selected
    /// strategy renders, success and failure alike, with every argument
    /// passed through unchanged.
    pub open spec fn dispatch_spec(
        self,
        symbol: MemberSymbol,
        tools: QueryTools,
        next: SqlNode,
        templates: PlanSqlTemplates,
    ) -> Result<Seq<char>, Seq<char>>
        decreases root_size(self) + node_size(next),
    {
        render_spec(self.selected(symbol.kind_spec()), symbol, tools, next, templates)
    }

    /// The strategies enumerated by structural introspection: a fixed
    /// four-element sequence. The time-dimension and cube-table processors
    /// take part in dispatch but are deliberately absent here.
    pub open spec fn childs_spec(self) -> Seq<SqlNode> {
        seq![
            self.dimension_processor,
            self.measure_processor,
            self.cube_name_processor,
            self.default_processor,
        ]
    }

    /// Build a dispatcher from exactly six strategies, one per explicit
    /// kind plus the default fallback. No semantic validation is performed;
    /// the six are held unchanged for the rest of the build.
    pub fn new(
        dimension_processor: SqlNode,
        time_dimension_processor: SqlNode,
        measure_processor: SqlNode,
        cube_name_processor: SqlNode,
        cube_table_processor: SqlNode,
        default_processor: SqlNode,
    ) -> (r: Rc<Self>)
        ensures
            (*r).dimension_processor == dimension_processor,
            (*r).time_dimension_processor == time_dimension_processor,
            (*r).measure_processor == measure_processor,
            (*r).cube_name_processor == cube_name_processor,
            (*r).cube_table_processor == cube_table_processor,
            (*r).default_processor == default_processor,
    {
        Rc::new(
            RootSqlNode {
                dimension_processor,
                time_dimension_processor,
                measure_processor,
                cube_name_processor,
                cube_table_processor,
                default_processor,
            },
        )
    }

    pub fn dimension_processor(&self) -> (r: &SqlNode)
        ensures
            *r == self.dimension_processor,
    {
        &self.dimension_processor
    }

    pub fn measure_processor(&self) -> (r: &SqlNode)
        ensures
            *r == self.measure_processor,
    {
        &self.measure_processor
    }

    pub fn cube_name_processor(&self) -> (r: &SqlNode)
        ensures
            *r == self.cube_name_processor,
    {
        &self.cube_name_processor
    }

    pub fn default_processor(&self) -> (r: &SqlNode)
        ensures
            *r == self.default_processor,
    {
        &self.default_processor
    }

    /// Route one render call to the strategy matching the symbol's kind.
    /// The five explicit kinds reach their dedicated processors; every
    /// other kind reaches the default processor. All arguments are passed
    /// through unchanged, and the selected strategy's result — its SQL text
    /// or its exact error — is returned unaltered.
    pub fn to_sql(
        &self,
        visitor: &SqlEvaluatorVisitor,
        node: &MemberSymbol,
        query_tools: &QueryTools,
        node_processor: &SqlNode,
        templates: &PlanSqlTemplates,
    ) -> (r: Result<String, GenerationError>)
        ensures
            sql_result_view(r) == self.dispatch_spec(*node, *query_tools, *node_processor, *templates),
        decreases root_size(*self) + node_size(*node_processor),
    {
        match node {
            MemberSymbol::Dimension(_) => self.dimension_processor.to_sql(
                visitor,
                node,
                query_tools,
                node_processor,
                templates,
            ),
            MemberSymbol::TimeDimension(_) => self.time_dimension_processor.to_sql(
                visitor,
                node,
                query_tools,
                node_processor,
                templates,
            ),
            MemberSymbol::Measure(_) => self.measure_processor.to_sql(
                visitor,
                node,
                query_tools,
                node_processor,
                templates,
            ),
            MemberSymbol::CubeName(_) => self.cube_name_processor.to_sql(
                visitor,
                node,
                query_tools,
                node_processor,
                templates,
            ),
            MemberSymbol::CubeTable(_) => self.cube_table_processor.to_sql(
                visitor,
                node,
                query_tools,
                node_processor,
                templates,
            ),
            _ => self.default_processor.to_sql(
                visitor,
                node,
                query_tools,
                node_processor,
                templates,
            ),
        }
    }

    /// Enumerate the strategies exposed for structural introspection: a
    /// fixed four-element sequence, independent of anything ever dispatched.
    pub fn childs(&self) -> (r: Vec<&SqlNode>)
        ensures
            r@.len() == self.childs_spec().len(),
            forall|i: int| 0 <= i < r@.len() ==> *r@[i] == self.childs_spec()[i],
    {
        let mut result: Vec<&SqlNode> = Vec::new();
        result.push(&self.dimension_processor);
        result.push(&self.measure_processor);
        result.push(&self.cube_name_processor);
        result.push(&self.default_processor);
        result
    }
}

} // verus!
