use vstd::prelude::*;

use crate::context::PlanSqlTemplates;
use crate::context::QueryTools;
use crate::sql_nodes::render_spec;
use crate::sql_nodes::RootSqlNode;
use crate::sql_nodes::SqlNode;
use crate::symbol::MemberSymbol;
use crate::symbol::SymbolKind;

verus! {

/// Dispatching a symbol of one of the five explicit kinds renders through
/// exactly the processor held for that kind, and the dispatcher returns
/// that processor's output unchanged.
pub proof fn lemma_explicit_kind_uses_matching_processor(
    dispatcher: RootSqlNode,
    symbol: MemberSymbol,
    tools: QueryTools,
    next: SqlNode,
    templates: PlanSqlTemplates,
)
    ensures
        symbol.kind_spec() == SymbolKind::Dimension ==> dispatcher.dispatch_spec(
            symbol,
            tools,
            next,
            templates,
        ) == render_spec(dispatcher.dimension_processor, symbol, tools, next, templates),
        symbol.kind_spec() == SymbolKind::TimeDimension ==> dispatcher.dispatch_spec(
            symbol,
            tools,
            next,
            templates,
        ) == render_spec(dispatcher.time_dimension_processor, symbol, tools, next, templates),
        symbol.kind_spec() == SymbolKind::Measure ==> dispatcher.dispatch_spec(
            symbol,
            tools,
            next,
            templates,
        ) == render_spec(dispatcher.measure_processor, symbol, tools, next, templates),
        symbol.kind_spec() == SymbolKind::CubeName ==> dispatcher.dispatch_spec(
            symbol,
            tools,
            next,
            templates,
        ) == render_spec(dispatcher.cube_name_processor, symbol, tools, next, templates),
        symbol.kind_spec() == SymbolKind::CubeTable ==> dispatcher.dispatch_spec(
            symbol,
            tools,
            next,
            templates,
        ) == render_spec(dispatcher.cube_table_processor, symbol, tools, next, templates),
{
}

/// Dispatching a symbol of any kind outside the five explicit ones renders
/// through exactly the default processor.
pub proof fn lemma_other_kind_uses_default_processor(
    dispatcher: RootSqlNode,
    symbol: MemberSymbol,
    tools: QueryTools,
    next: SqlNode,
    templates: PlanSqlTemplates,
)
    ensures
        symbol.kind_spec() == SymbolKind::Other ==> dispatcher.dispatch_spec(
            symbol,
            tools,
            next,
            templates,
        ) == render_spec(dispatcher.default_processor, symbol, tools, next, templates),
{
}

/// Dispatch is total: whatever the kind, the selected strategy is one of
/// the six the dispatcher holds, so no kind is ever left unhandled.
pub proof fn lemma_dispatch_total(dispatcher: RootSqlNode, kind: SymbolKind)
    ensures
        dispatcher.selected(kind) == dispatcher.dimension_processor
            || dispatcher.selected(kind) == dispatcher.time_dimension_processor
            || dispatcher.selected(kind) == dispatcher.measure_processor
            || dispatcher.selected(kind) == dispatcher.cube_name_processor
            || dispatcher.selected(kind) == dispatcher.cube_table_processor
            || dispatcher.selected(kind) == dispatcher.default_processor,
{
}

/// Dispatch is referentially transparent: the selected strategy depends on
/// the symbol's kind alone, so two symbols of the same kind — in particular
/// the same symbol dispatched twice — select the same processor, and the
/// rendered result is a function of the dispatcher, symbol, context,
/// continuation and templates alone.
pub proof fn lemma_dispatch_referentially_transparent(
    dispatcher: RootSqlNode,
    first: MemberSymbol,
    second: MemberSymbol,
    tools: QueryTools,
    next: SqlNode,
    templates: PlanSqlTemplates,
)
    requires
        first.kind_spec() == second.kind_spec(),
    ensures
        dispatcher.selected(first.kind_spec()) == dispatcher.selected(second.kind_spec()),
{
}

/// An error from the selected processor propagates through the dispatcher
/// exactly as produced: no wrapping, no retry, no substitution, and no
/// other processor's result can take its place.
pub proof fn lemma_error_propagates_unaltered(
    dispatcher: RootSqlNode,
    symbol: MemberSymbol,
    tools: QueryTools,
    next: SqlNode,
    templates: PlanSqlTemplates,
)
    ensures
        dispatcher.dispatch_spec(symbol, tools, next, templates) == render_spec(
            dispatcher.selected(symbol.kind_spec()),
            symbol,
            tools,
            next,
            templates,
        ),
        render_spec(dispatcher.selected(symbol.kind_spec()), symbol, tools, next, templates)
            matches Err(message) ==> dispatcher.dispatch_spec(symbol, tools, next, templates)
            == Err::<Seq<char>, Seq<char>>(message),
{
}

/// Structural introspection is fixed: the enumerated children are exactly
/// the dimension, measure, cube-name and default processors, in that order,
/// whatever was dispatched before. The time-dimension and cube-table
/// processors take part in dispatch but are deliberately absent from the
/// enumeration.
pub proof fn lemma_childs_fixed(dispatcher: RootSqlNode)
    ensures
        dispatcher.childs_spec().len() == 4,
        dispatcher.childs_spec()[0] == dispatcher.dimension_processor,
        dispatcher.childs_spec()[1] == dispatcher.measure_processor,
        dispatcher.childs_spec()[2] == dispatcher.cube_name_processor,
        dispatcher.childs_spec()[3] == dispatcher.default_processor,
{
}

} // verus!
