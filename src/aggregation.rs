//! Recognition of the aggregation in the `SELECT` clause.
use vstd::prelude::*;
use crate::error::{result_view, Failure, ParseError};
use crate::query_metadata::{FromClauseIdentifier, FromRef};
use crate::support::{
    ascii_lower, case_fold_identifier, decimal, extract_qualified_column, folded, lemma_parens_around_strip,
    name_sql, parens_around, qualified_column,
    remove_outer_parens, render_name, stripped, usize_text,
};
use crate::syntax::{Expr, ExprKind, Function, FunctionArg, FunctionArgExpr, Ident, SelectItem};
use crate::table::opt_text;

verus! {

/// An aggregation / analytic function.
#[derive(Clone, Copy, Debug, PartialEq, Eq, Default)]
pub enum KoronFunction {
    /// The `sum` aggregation function.
    Sum,
    /// The `count` aggregation function.
    #[default]
    Count,
    /// The `avg` aggregation function.
    Average,
    /// The `median` aggregation function.
    Median,
    /// The `variance` aggregation function.
    Variance,
    /// The `stddev` aggregation function.
    StandardDeviation,
}

/// The function that a folded name calls, if it is one of the six.
pub open spec fn function_of_name(name: Seq<char>) -> Option<KoronFunction> {
    if name == "sum"@ {
        Some(KoronFunction::Sum)
    } else if name == "count"@ {
        Some(KoronFunction::Count)
    } else if name == "avg"@ {
        Some(KoronFunction::Average)
    } else if name == "median"@ {
        Some(KoronFunction::Median)
    } else if name == "variance"@ {
        Some(KoronFunction::Variance)
    } else if name == "stddev"@ {
        Some(KoronFunction::StandardDeviation)
    } else {
        None
    }
}

/// The name under which each function is called, in lower case.
pub open spec fn sql_name(f: KoronFunction) -> Seq<char> {
    match f {
        KoronFunction::Sum => "sum"@,
        KoronFunction::Count => "count"@,
        KoronFunction::Average => "avg"@,
        KoronFunction::Median => "median"@,
        KoronFunction::Variance => "variance"@,
        KoronFunction::StandardDeviation => "stddev"@,
    }
}

/// How each function is named for people.
pub open spec fn display_name(f: KoronFunction) -> Seq<char> {
    match f {
        KoronFunction::Sum => "Sum"@,
        KoronFunction::Count => "Count"@,
        KoronFunction::Average => "Average"@,
        KoronFunction::Median => "Median"@,
        KoronFunction::Variance => "Variance"@,
        KoronFunction::StandardDeviation => "Standard Deviation"@,
    }
}

fn text_is(s: &String, literal: &str) -> (r: bool)
    ensures
        r == (s@ == literal@),
{
    *s == String::from_str(literal)
}

impl KoronFunction {
    /// Looks up the function that a folded name calls.
    pub fn from_name(name: &String) -> (r: Option<KoronFunction>)
        ensures
            r == function_of_name(name@),
    {
        if text_is(name, "sum") {
            Some(KoronFunction::Sum)
        } else if text_is(name, "count") {
            Some(KoronFunction::Count)
        } else if text_is(name, "avg") {
            Some(KoronFunction::Average)
        } else if text_is(name, "median") {
            Some(KoronFunction::Median)
        } else if text_is(name, "variance") {
            Some(KoronFunction::Variance)
        } else if text_is(name, "stddev") {
            Some(KoronFunction::StandardDeviation)
        } else {
            None
        }
    }

    /// The function's name for people.
    pub fn to_string(&self) -> (r: String)
        ensures
            r@ == display_name(*self),
    {
        match self {
            KoronFunction::Sum => String::from_str("Sum"),
            KoronFunction::Count => String::from_str("Count"),
            KoronFunction::Average => String::from_str("Average"),
            KoronFunction::Median => String::from_str("Median"),
            KoronFunction::Variance => String::from_str("Variance"),
            KoronFunction::StandardDeviation => String::from_str("Standard Deviation"),
        }
    }
}

/// An aggregation computed over the values of a column:
/// `function(column) [AS alias]` in the `SELECT` clause.
#[derive(Clone, Debug, PartialEq, Eq, Default)]
pub struct Aggregation {
    /// The function that aggregates the column's values.
    pub function: KoronFunction,
    /// The column on which the function is computed.
    pub column: String,
    /// The alias given to the result: `function(column) AS alias`.
    pub alias: Option<String>,
}

/// The mathematical value of an `Aggregation`.
pub struct AggregationView {
    pub function: KoronFunction,
    pub column: Seq<char>,
    pub alias: Option<Seq<char>>,
}

impl View for Aggregation {
    type V = AggregationView;

    open spec fn view(&self) -> AggregationView {
        AggregationView { function: self.function, column: self.column@, alias: opt_text(self.alias) }
    }
}

pub open spec fn only_one_aggregation() -> Failure {
    Failure::Unsupported(
        "the SELECT clause must contain exactly one aggregation / analytic function. Nothing else is accepted."@,
    )
}

pub open spec fn only_a_column(name: Seq<Ident>) -> Failure {
    Failure::Unsupported(
        "only a column name is supported as the argument of the "@ + name_sql(name) + " function."@,
    )
}

/// The column that the single argument of a function names.
pub open spec fn aggregated_column(from: FromRef, name: Seq<Ident>, arg: FunctionArgExpr) -> Result<Seq<char>, Failure> {
    match arg {
        FunctionArgExpr::Expr(e) => match stripped(e).kind {
            ExprKind::Identifier(id) => Ok(folded(id)),
            ExprKind::CompoundIdentifier(parts) => qualified_column(from, stripped(e).text@, parts@),
            _ => Err(only_a_column(name)),
        },
        _ => Err(only_a_column(name)),
    }
}

/// The column of a call that takes exactly one unnamed argument.
pub open spec fn only_column_argument(from: FromRef, name: Seq<Ident>, args: Seq<FunctionArg>) -> Result<Seq<char>, Failure> {
    if args.len() != 1 {
        Err(Failure::MalformedQuery(
            "the "@ + name_sql(name) + " function takes exactly 1 argument, but "@ + decimal(args.len())
                + " are provided."@,
        ))
    } else {
        match args[0] {
            FunctionArg::Named(text) => Err(Failure::Unsupported(
                "named function arguments (such as "@ + text@ + ")."@,
            )),
            FunctionArg::Unnamed(a) => aggregated_column(from, name, a),
        }
    }
}

/// The function that a call names and the column it aggregates.
pub open spec fn function_and_column(from: FromRef, name: Seq<Ident>, args: Seq<FunctionArg>) -> Result<(KoronFunction, Seq<char>), Failure> {
    let function = if name.len() == 1 {
        function_of_name(folded(name[0]))
    } else {
        None
    };
    match function {
        None => Err(Failure::Unsupported("unrecognized or unsupported function: "@ + name_sql(name) + "."@)),
        Some(k) => match only_column_argument(from, name, args) {
            Ok(c) => Ok((k, c)),
            Err(e) => Err(e),
        },
    }
}

/// A plain call `function(column)`: no window, `DISTINCT`, `ORDER BY`,
/// `FILTER` or null treatment.
pub open spec fn call_of(from: FromRef, f: Function) -> Result<(KoronFunction, Seq<char>), Failure> {
    if f.over is Some {
        Err(Failure::Unsupported("window functions (OVER)."@))
    } else if f.distinct {
        Err(Failure::Unsupported("DISTINCT."@))
    } else if f.order_by@.len() != 0 {
        Err(Failure::Unsupported("ORDER BY."@))
    } else if f.filter is Some {
        Err(Failure::Unsupported("FILTER."@))
    } else if f.null_treatment is Some {
        Err(Failure::Unsupported("IGNORE NULLS."@))
    } else {
        function_and_column(from, f.name@, f.args@)
    }
}

/// The aggregation that a `SELECT` list computes: exactly one item, an aggregation
/// call with or without an alias.
pub open spec fn aggregation_of(from: FromRef, projection: Seq<SelectItem>) -> Result<AggregationView, Failure> {
    if projection.len() != 1 {
        Err(only_one_aggregation())
    } else {
        let (expr, alias) = match projection[0] {
            SelectItem::UnnamedExpr(e) => (Some(e), None),
            SelectItem::ExprWithAlias { expr, alias } => (Some(expr), Some(folded(alias))),
            _ => (None, None),
        };
        match expr {
            None => Err(only_one_aggregation()),
            Some(e) => match stripped(e).kind {
                ExprKind::Function(f) => match call_of(from, f) {
                    Ok((function, column)) => Ok(AggregationView { function, column, alias }),
                    Err(x) => Err(x),
                },
                _ => Err(only_one_aggregation()),
            },
        }
    }
}

fn only_one_aggregation_error() -> (r: ParseError)
    ensures
        r@ == only_one_aggregation(),
{
    ParseError::Unsupported {
        message: String::from_str(
            "the SELECT clause must contain exactly one aggregation / analytic function. Nothing else is accepted.",
        ),
    }
}

fn unsupported(message: &str) -> (r: ParseError)
    ensures
        r@ == Failure::Unsupported(message@),
{
    ParseError::Unsupported { message: String::from_str(message) }
}

impl Aggregation {
    /// Recognizes `function(column) [AS alias]` as the only item of the `SELECT`
    /// list.
    pub fn extract(
        from_clause_identifier: FromClauseIdentifier,
        projection: &Vec<SelectItem>,
    ) -> (r: Result<Self, ParseError>)
        ensures
            result_view(r) == aggregation_of(from_clause_identifier@, projection@),
    {
        if projection.len() != 1 {
            return Err(only_one_aggregation_error());
        }
        let (expr, alias) = match &projection[0] {
            SelectItem::UnnamedExpr(e) => (e, None),
            SelectItem::ExprWithAlias { expr, alias } => (expr, Some(case_fold_identifier(alias))),
            _ => {
                return Err(only_one_aggregation_error());
            },
        };
        let function = match &remove_outer_parens(expr).kind {
            ExprKind::Function(f) => f,
            _ => {
                return Err(only_one_aggregation_error());
            },
        };
        if function.over.is_some() {
            return Err(unsupported("window functions (OVER)."));
        }
        if function.distinct {
            return Err(unsupported("DISTINCT."));
        }
        if function.order_by.len() != 0 {
            return Err(unsupported("ORDER BY."));
        }
        if function.filter.is_some() {
            return Err(unsupported("FILTER."));
        }
        if function.null_treatment.is_some() {
            return Err(unsupported("IGNORE NULLS."));
        }
        match Self::validate_function_and_arguments(from_clause_identifier, &function.name, &function.args) {
            Ok((function, column)) => Ok(Aggregation { function, column, alias }),
            Err(e) => Err(e),
        }
    }

    /// Checks that a call names one of the six functions, with one column as its
    /// argument.
    pub fn validate_function_and_arguments(
        from_clause_identifier: FromClauseIdentifier,
        function_name: &Vec<Ident>,
        args: &Vec<FunctionArg>,
    ) -> (r: Result<(KoronFunction, String), ParseError>)
        ensures
            match r {
                Ok((k, c)) => function_and_column(from_clause_identifier@, function_name@, args@)
                    == Ok::<_, Failure>((k, c@)),
                Err(e) => function_and_column(from_clause_identifier@, function_name@, args@)
                    == Err::<(KoronFunction, Seq<char>), _>(e@),
            },
    {
        if function_name.len() == 1 {
            let folded_name = case_fold_identifier(&function_name[0]);
            if let Some(k) = KoronFunction::from_name(&folded_name) {
                let column = Self::extract_only_column_argument(from_clause_identifier, function_name, args)?;
                return Ok((k, column));
            }
        }
        let name = render_name(function_name);
        Err(ParseError::Unsupported {
            message: String::from_str("unrecognized or unsupported function: ").concat(name.as_str()).concat("."),
        })
    }

    /// The column of a call that takes exactly one argument.
    pub fn extract_only_column_argument(
        from_clause_identifier: FromClauseIdentifier,
        function_name: &Vec<Ident>,
        args: &Vec<FunctionArg>,
    ) -> (r: Result<String, ParseError>)
        ensures
            result_view(r) == only_column_argument(from_clause_identifier@, function_name@, args@),
    {
        if args.len() != 1 {
            let name = render_name(function_name);
            let count = usize_text(args.len());
            return Err(ParseError::MalformedQuery {
                message: String::from_str("the ").concat(name.as_str()).concat(
                    " function takes exactly 1 argument, but ",
                ).concat(count.as_str()).concat(" are provided."),
            });
        }
        let arg_expr = Self::extract_unnamed_argument(&args[0])?;
        Self::extract_aggregated_column(from_clause_identifier, function_name, arg_expr)
    }

    /// The value of an unnamed argument; named arguments are not supported.
    pub fn extract_unnamed_argument(arg: &FunctionArg) -> (r: Result<&FunctionArgExpr, ParseError>)
        ensures
            match r {
                Ok(a) => *arg == FunctionArg::Unnamed(*a),
                Err(e) => exists|text: String| *arg == FunctionArg::Named(text)
                    && e@ == Failure::Unsupported("named function arguments (such as "@ + text@ + ")."@),
            },
    {
        match arg {
            FunctionArg::Named(text) => Err(ParseError::Unsupported {
                message: String::from_str("named function arguments (such as ").concat(text.as_str()).concat(")."),
            }),
            FunctionArg::Unnamed(a) => Ok(a),
        }
    }

    /// The column that an argument names, bare or qualified.
    pub fn extract_aggregated_column(
        from_clause_identifier: FromClauseIdentifier,
        function_name: &Vec<Ident>,
        arg_expr: &FunctionArgExpr,
    ) -> (r: Result<String, ParseError>)
        ensures
            result_view(r) == aggregated_column(from_clause_identifier@, function_name@, *arg_expr),
    {
        if let FunctionArgExpr::Expr(expr) = arg_expr {
            let inner = remove_outer_parens(expr);
            match &inner.kind {
                ExprKind::Identifier(ident) => {
                    return Ok(case_fold_identifier(ident));
                },
                ExprKind::CompoundIdentifier(name_parts) => {
                    return extract_qualified_column(from_clause_identifier, inner, name_parts);
                },
                _ => {},
            }
        }
        let name = render_name(function_name);
        Err(ParseError::Unsupported {
            message: String::from_str("only a column name is supported as the argument of the ").concat(
                name.as_str(),
            ).concat(" function."),
        })
    }
}

} // verus!

verus! {

/// Each function's name is looked up as that function.
pub proof fn lemma_function_of_sql_name(f: KoronFunction)
    ensures
        function_of_name(sql_name(f)) == Some(f),
        ascii_lower(sql_name(f)) == sql_name(f),
{
    reveal_strlit("sum");
    reveal_strlit("count");
    reveal_strlit("avg");
    reveal_strlit("median");
    reveal_strlit("variance");
    reveal_strlit("stddev");
    assert(ascii_lower(sql_name(f)) =~= sql_name(f));
    assert("count"@.len() != "sum"@.len());
    assert("avg"@[0] != "sum"@[0]);
    assert("avg"@.len() != "count"@.len());
    assert("median"@.len() != "sum"@.len() && "median"@.len() != "count"@.len());
    assert("median"@.len() != "avg"@.len());
    assert("variance"@.len() != "sum"@.len() && "variance"@.len() != "count"@.len());
    assert("variance"@.len() != "avg"@.len() && "variance"@.len() != "median"@.len());
    assert("stddev"@.len() != "sum"@.len() && "stddev"@.len() != "count"@.len());
    assert("stddev"@.len() != "avg"@.len() && "stddev"@[0] != "median"@[0]);
    assert("stddev"@.len() != "variance"@.len());
}

/// The only names that are looked up as a function are the six lower-case ones.
pub proof fn lemma_function_names(name: Seq<char>)
    ensures
        function_of_name(name) is Some ==> name == sql_name(function_of_name(name)->Some_0),
{
}

/// A call that names the column it aggregates and nothing more.
pub open spec fn plain_call(f: Function, column: Ident) -> bool {
    &&& f.over is None
    &&& !f.distinct
    &&& f.order_by@.len() == 0
    &&& f.filter is None
    &&& f.null_treatment is None
    &&& f.args@.len() == 1
    &&& f.args@[0] is Unnamed
    &&& f.args@[0]->Unnamed_0 is Expr
    &&& stripped(f.args@[0]->Unnamed_0->Expr_0).kind == ExprKind::Identifier(column)
}

/// Written unquoted, the name of each of the six functions is recognized in any
/// mix of upper- and lower-case letters, and the call is extracted as that
/// function over its column.
pub proof fn lemma_unquoted_name_any_case(
    from: FromRef,
    call: Function,
    text: String,
    column: Ident,
    f: KoronFunction,
)
    requires
        call.name@.len() == 1,
        call.name@[0].quote_style is None,
        ascii_lower(call.name@[0].value@) == sql_name(f),
        plain_call(call, column),
    ensures
        aggregation_of(from, seq![SelectItem::UnnamedExpr(Expr { kind: ExprKind::Function(call), text })])
            == Ok::<_, Failure>(AggregationView { function: f, column: folded(column), alias: None }),
{
    lemma_function_of_sql_name(f);
    let e = Expr { kind: ExprKind::Function(call), text };
    assert(stripped(e) == e);
}

/// Quoted, a name is taken as written: one of the six names with a letter in
/// upper case is not recognized.
pub proof fn lemma_quoted_name_case_sensitive(
    from: FromRef,
    call: Function,
    text: String,
    f: KoronFunction,
)
    requires
        call.name@.len() == 1,
        call.name@[0].quote_style is Some,
        ascii_lower(call.name@[0].value@) == sql_name(f),
        call.name@[0].value@ != sql_name(f),
        call.over is None,
        !call.distinct,
        call.order_by@.len() == 0,
        call.filter is None,
        call.null_treatment is None,
    ensures
        aggregation_of(from, seq![SelectItem::UnnamedExpr(Expr { kind: ExprKind::Function(call), text })])
            == Err::<AggregationView, _>(
            Failure::Unsupported("unrecognized or unsupported function: "@ + name_sql(call.name@) + "."@),
        ),
{
    let value = call.name@[0].value@;
    lemma_function_names(value);
    if function_of_name(value) is Some {
        let g = function_of_name(value)->Some_0;
        lemma_function_of_sql_name(g);
        lemma_function_of_sql_name(f);
        assert(sql_name(g) == sql_name(f));
        assert(false);
    }
    let e = Expr { kind: ExprKind::Function(call), text };
    assert(stripped(e) == e);
}

/// Parentheses around the aggregation call, or around its argument, change
/// nothing that is extracted.
pub proof fn lemma_parenthesized_call(from: FromRef, outer: Expr, inner: Expr, alias: Option<Ident>)
    requires
        parens_around(outer, inner),
    ensures
        aggregation_of(from, seq![SelectItem::UnnamedExpr(outer)]) == aggregation_of(
            from,
            seq![SelectItem::UnnamedExpr(inner)],
        ),
        alias is Some ==> aggregation_of(
            from,
            seq![SelectItem::ExprWithAlias { expr: outer, alias: alias->Some_0 }],
        ) == aggregation_of(from, seq![SelectItem::ExprWithAlias { expr: inner, alias: alias->Some_0 }]),
{
    lemma_parens_around_strip(outer, inner);
}

/// Parentheses around a function's argument change nothing that is extracted.
pub proof fn lemma_parenthesized_argument(from: FromRef, name: Seq<Ident>, outer: Expr, inner: Expr)
    requires
        parens_around(outer, inner),
    ensures
        aggregated_column(from, name, FunctionArgExpr::Expr(outer)) == aggregated_column(
            from,
            name,
            FunctionArgExpr::Expr(inner),
        ),
{
    lemma_parens_around_strip(outer, inner);
}

} // verus!
