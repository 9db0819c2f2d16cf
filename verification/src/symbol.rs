use vstd::prelude::*;

verus! {

/// A resolved member of the semantic query representation. The dispatch
/// layer reads only the variant tag; the payload (the member's full name)
/// is carried through opaquely for the terminal renderers.
///
/// Five kinds have dedicated rendering strategies in the root dispatcher;
/// every other kind routes to the default strategy.
pub enum MemberSymbol {
    Dimension(String),
    TimeDimension(String),
    Measure(String),
    CubeName(String),
    CubeTable(String),
    /// A member defined by an ad-hoc expression: no dedicated strategy.
    MemberExpression(String),
    /// A time-shifted reference to another member: no dedicated strategy.
    TimeShift(String),
}

/// The routing tag of a symbol: the five explicitly dispatched kinds, and
/// `Other` for everything the dispatcher has no dedicated strategy for.
#[derive(Debug, Clone, Copy, PartialEq, Eq, Structural)]
pub enum SymbolKind {
    Dimension,
    TimeDimension,
    Measure,
    CubeName,
    CubeTable,
    Other,
}

impl MemberSymbol {
    /// The routing tag this symbol dispatches under.
    pub open spec fn kind_spec(self) -> SymbolKind {
        match self {
            MemberSymbol::Dimension(_) => SymbolKind::Dimension,
            MemberSymbol::TimeDimension(_) => SymbolKind::TimeDimension,
            MemberSymbol::Measure(_) => SymbolKind::Measure,
            MemberSymbol::CubeName(_) => SymbolKind::CubeName,
            MemberSymbol::CubeTable(_) => SymbolKind::CubeTable,
            MemberSymbol::MemberExpression(_) => SymbolKind::Other,
            MemberSymbol::TimeShift(_) => SymbolKind::Other,
        }
    }

    /// The member's full name, the one piece of payload the terminal
    /// renderers of this layer read.
    pub open spec fn name_spec(self) -> Seq<char> {
        match self {
            MemberSymbol::Dimension(name) => name@,
            MemberSymbol::TimeDimension(name) => name@,
            MemberSymbol::Measure(name) => name@,
            MemberSymbol::CubeName(name) => name@,
            MemberSymbol::CubeTable(name) => name@,
            MemberSymbol::MemberExpression(name) => name@,
            MemberSymbol::TimeShift(name) => name@,
        }
    }

    pub fn kind(&self) -> (k: SymbolKind)
        ensures
            k == self.kind_spec(),
    {
        match self {
            MemberSymbol::Dimension(_) => SymbolKind::Dimension,
            MemberSymbol::TimeDimension(_) => SymbolKind::TimeDimension,
            MemberSymbol::Measure(_) => SymbolKind::Measure,
            MemberSymbol::CubeName(_) => SymbolKind::CubeName,
            MemberSymbol::CubeTable(_) => SymbolKind::CubeTable,
            MemberSymbol::MemberExpression(_) => SymbolKind::Other,
            MemberSymbol::TimeShift(_) => SymbolKind::Other,
        }
    }

    pub fn full_name(&self) -> (r: &String)
        ensures
            r@ == self.name_spec(),
    {
        match self {
            MemberSymbol::Dimension(name) => name,
            MemberSymbol::TimeDimension(name) => name,
            MemberSymbol::Measure(name) => name,
            MemberSymbol::CubeName(name) => name,
            MemberSymbol::CubeTable(name) => name,
            MemberSymbol::MemberExpression(name) => name,
            MemberSymbol::TimeShift(name) => name,
        }
    }
}

} // verus!
