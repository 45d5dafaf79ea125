//! The part of a SQL syntax tree that the analysis reads.
//!
//! A tree is built from the output of a general-purpose SQL parser. Identifiers
//! keep their value and quoting; clauses that are only ever rejected or copied
//! keep their SQL text; every expression keeps the SQL text that the parser
//! renders for it.
use vstd::prelude::*;

verus! {

/// How an identifier was quoted in the SQL text.
#[derive(Clone, Copy, Debug, PartialEq, Eq)]
pub enum QuoteStyle {
    /// `"name"`
    Double,
    /// `'name'`
    Single,
    /// `` `name` ``
    Backtick,
    /// `[name]`
    Bracket,
}

/// An identifier, with the quote that enclosed it, if any.
#[derive(Clone, Debug, PartialEq, Eq)]
pub struct Ident {
    pub value: String,
    pub quote_style: Option<QuoteStyle>,
}

/// One statement of a SQL text.
#[derive(Debug, PartialEq, Eq)]
pub enum Statement {
    /// A query (`SELECT`, `VALUES`, set operations, ...).
    Query(Box<Query>),
    /// Any other statement (`INSERT`, `DELETE`, `CREATE TABLE`, ...).
    Other,
}

/// A query with its outer clauses; optional clauses are kept as SQL text.
#[derive(Debug, PartialEq, Eq)]
pub struct Query {
    pub with: Option<String>,
    pub body: Box<SetExpr>,
    pub order_by: Vec<String>,
    pub limit: Option<String>,
    pub limit_by: Vec<String>,
    pub offset: Option<String>,
    pub fetch: Option<String>,
    pub locks: Vec<String>,
    pub for_clause: Option<String>,
}

/// The body of a query.
#[derive(Debug, PartialEq, Eq)]
pub enum SetExpr {
    Select(Box<Select>),
    /// A parenthesized query.
    Query(Box<Query>),
    /// `UNION`, `EXCEPT` or `INTERSECT`, by the operator's text.
    SetOperation { op: String },
    Values,
    Insert,
    Update,
    Table,
}

/// A `SELECT` block; clauses that are only checked for presence are kept as text.
#[derive(Debug, PartialEq, Eq)]
pub struct Select {
    pub distinct: Option<String>,
    pub top: Option<String>,
    pub projection: Vec<SelectItem>,
    pub into: Option<String>,
    pub from: Vec<TableWithJoins>,
    pub lateral_views: Vec<String>,
    pub selection: Option<Expr>,
    pub group_by: GroupByExpr,
    pub cluster_by: Vec<String>,
    pub distribute_by: Vec<String>,
    pub sort_by: Vec<String>,
    pub having: Option<String>,
    pub named_window: Vec<String>,
    pub qualify: Option<String>,
}

/// The `GROUP BY` clause.
#[derive(Clone, Debug, PartialEq, Eq)]
pub enum GroupByExpr {
    /// `GROUP BY ALL`
    All,
    /// `GROUP BY e1, e2, ...`; empty when there is no `GROUP BY`.
    Expressions(Vec<String>),
}

/// One item of the `SELECT` list.
#[derive(Debug, PartialEq, Eq)]
pub enum SelectItem {
    UnnamedExpr(Expr),
    ExprWithAlias { expr: Expr, alias: Ident },
    /// `prefix.*`
    QualifiedWildcard(Vec<Ident>),
    /// `*`
    Wildcard,
}

/// One entry of the `FROM` list, with the SQL text that the parser renders for
/// it; joins are kept as text.
#[derive(Clone, Debug, PartialEq, Eq)]
pub struct TableWithJoins {
    pub relation: TableFactor,
    pub joins: Vec<String>,
    pub text: String,
}

/// What a `FROM` entry reads from.
#[derive(Clone, Debug, PartialEq, Eq)]
pub enum TableFactor {
    /// A named table, with the parts that may follow its name.
    Table {
        name: Vec<Ident>,
        alias: Option<TableAlias>,
        args: Option<Vec<String>>,
        with_hints: Vec<String>,
        version: Option<String>,
        partitions: Vec<Ident>,
    },
    /// A derived table, table function, `UNNEST`, nested join, pivot, unpivot
    /// or JSON table.
    Other,
}

/// `AS name` or `AS name (column, ...)` after a table.
#[derive(Clone, Debug, PartialEq, Eq)]
pub struct TableAlias {
    pub name: Ident,
    pub columns: Vec<Ident>,
}

/// An expression, with the SQL text that the parser renders for it.
#[derive(Debug, PartialEq, Eq)]
pub struct Expr {
    pub kind: ExprKind,
    pub text: String,
}

/// The shapes of expression that the analysis tells apart.
#[derive(Debug, PartialEq, Eq)]
pub enum ExprKind {
    Identifier(Ident),
    /// `a.b.c`
    CompoundIdentifier(Vec<Ident>),
    /// `(e)`
    Nested(Box<Expr>),
    Function(Function),
    BinaryOp { left: Box<Expr>, op: BinaryOperator, right: Box<Expr> },
    IsNull(Box<Expr>),
    IsNotNull(Box<Expr>),
    IsTrue(Box<Expr>),
    IsNotTrue(Box<Expr>),
    IsFalse(Box<Expr>),
    IsNotFalse(Box<Expr>),
    UnaryOp { op: UnaryOperator, expr: Box<Expr> },
    Value(Value),
    /// Any other expression.
    Other,
}

/// A binary operator; the ones that are not comparisons keep their text.
#[derive(Clone, Debug, PartialEq, Eq)]
pub enum BinaryOperator {
    Lt,
    LtEq,
    Gt,
    GtEq,
    Eq,
    NotEq,
    Other(String),
}

/// A unary operator.
#[derive(Clone, Debug, PartialEq, Eq)]
pub enum UnaryOperator {
    Plus,
    Minus,
    Other(String),
}

/// A literal value.
#[derive(Clone, Debug, PartialEq, Eq)]
pub enum Value {
    /// A number, as written.
    Number(String),
    /// A string literal of any kind (quoted, escaped, byte, raw, national, hex,
    /// dollar-quoted or unquoted), by its raw text.
    Text(String),
    Boolean(bool),
    Null,
    /// A placeholder such as `$1` or `?`.
    Placeholder(String),
}

/// A function call.
#[derive(Debug, PartialEq, Eq)]
pub struct Function {
    pub name: Vec<Ident>,
    pub args: Vec<FunctionArg>,
    pub filter: Option<String>,
    pub null_treatment: Option<String>,
    pub over: Option<String>,
    pub distinct: bool,
    pub order_by: Vec<String>,
}

/// An argument of a function call.
#[derive(Debug, PartialEq, Eq)]
pub enum FunctionArg {
    /// `name => arg`, by its SQL text.
    Named(String),
    Unnamed(FunctionArgExpr),
}

/// The value handed to a function.
#[derive(Debug, PartialEq, Eq)]
pub enum FunctionArgExpr {
    Expr(Expr),
    /// `prefix.*`
    QualifiedWildcard(Vec<Ident>),
    /// `*`
    Wildcard,
}

} // verus!
