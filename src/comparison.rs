//! Comparison operators and the operands they compare.
use vstd::prelude::*;
use crate::error::{Failure, ParseError};
use crate::query_metadata::{FromClauseIdentifier, FromRef};
use crate::support::{case_fold_identifier, extract_qualified_column, folded, qualified_column, remove_outer_parens, stripped};
use crate::syntax::{BinaryOperator, Expr, ExprKind};

verus! {

/// Whether a binary operator is one of the six comparisons.
pub open spec fn supported_binary(op: BinaryOperator) -> bool {
    !(op is Other)
}

/// Whether an expression is one of the six `IS ...` predicates.
pub open spec fn unary_predicate(e: Expr) -> bool {
    match e.kind {
        ExprKind::IsNull(_) | ExprKind::IsNotNull(_) | ExprKind::IsTrue(_) | ExprKind::IsNotTrue(_)
        | ExprKind::IsFalse(_) | ExprKind::IsNotFalse(_) => true,
        _ => false,
    }
}

/// Whether the operator is `<`, `<=`, `>`, `>=`, `=` or `<>`.
pub fn is_binary_operator_supported(op: &BinaryOperator) -> (r: bool)
    ensures
        r == supported_binary(*op),
{
    !matches!(op, BinaryOperator::Other(_))
}

/// Whether the expression is `IS [NOT] NULL`, `IS [NOT] TRUE` or `IS [NOT] FALSE`.
pub fn is_expression_supported(op: &Expr) -> (r: bool)
    ensures
        r == unary_predicate(*op),
{
    matches!(
        op.kind,
        ExprKind::IsNull(_) | ExprKind::IsNotNull(_) | ExprKind::IsTrue(_) | ExprKind::IsNotTrue(_)
            | ExprKind::IsFalse(_) | ExprKind::IsNotFalse(_)
    )
}

/// The SQL text of a binary operator.
pub open spec fn operator_sql(op: BinaryOperator) -> Seq<char> {
    match op {
        BinaryOperator::Lt => "<"@,
        BinaryOperator::LtEq => "<="@,
        BinaryOperator::Gt => ">"@,
        BinaryOperator::GtEq => ">="@,
        BinaryOperator::Eq => "="@,
        BinaryOperator::NotEq => "<>"@,
        BinaryOperator::Other(t) => t@,
    }
}

impl BinaryOperator {
    /// The operator as written in SQL.
    pub fn to_string(&self) -> (r: String)
        ensures
            r@ == operator_sql(*self),
    {
        match self {
            BinaryOperator::Lt => String::from_str("<"),
            BinaryOperator::LtEq => String::from_str("<="),
            BinaryOperator::Gt => String::from_str(">"),
            BinaryOperator::GtEq => String::from_str(">="),
            BinaryOperator::Eq => String::from_str("="),
            BinaryOperator::NotEq => String::from_str("<>"),
            BinaryOperator::Other(t) => t.clone(),
        }
    }
}

/// The comparison between the value of a column and a constant.
#[derive(Clone, Debug, PartialEq, Eq, Default)]
pub enum CompareOp {
    /// The column's value is less than `value`.
    Lt { value: String },
    /// The column's value is less than or equal to `value`.
    LtEq { value: String },
    /// The column's value is greater than `value`.
    Gt { value: String },
    /// The column's value is greater than or equal to `value`.
    GtEq { value: String },
    /// The column's value is equal to `value`.
    Eq { value: String },
    /// The column's value is not equal to `value`.
    NotEq { value: String },
    /// The column's value is `NULL`.
    #[default]
    IsNull,
    /// The column's value is not `NULL`.
    IsNotNull,
    /// The column's value is `true`.
    IsTrue,
    /// The column's value is not `true`.
    IsNotTrue,
    /// The column's value is `false`.
    IsFalse,
    /// The column's value is not `false`.
    IsNotFalse,
}

/// The mathematical value of a `CompareOp`.
pub enum ComparisonView {
    Lt(Seq<char>),
    LtEq(Seq<char>),
    Gt(Seq<char>),
    GtEq(Seq<char>),
    Eq(Seq<char>),
    NotEq(Seq<char>),
    IsNull,
    IsNotNull,
    IsTrue,
    IsNotTrue,
    IsFalse,
    IsNotFalse,
}

impl View for CompareOp {
    type V = ComparisonView;

    open spec fn view(&self) -> ComparisonView {
        match self {
            CompareOp::Lt { value } => ComparisonView::Lt(value@),
            CompareOp::LtEq { value } => ComparisonView::LtEq(value@),
            CompareOp::Gt { value } => ComparisonView::Gt(value@),
            CompareOp::GtEq { value } => ComparisonView::GtEq(value@),
            CompareOp::Eq { value } => ComparisonView::Eq(value@),
            CompareOp::NotEq { value } => ComparisonView::NotEq(value@),
            CompareOp::IsNull => ComparisonView::IsNull,
            CompareOp::IsNotNull => ComparisonView::IsNotNull,
            CompareOp::IsTrue => ComparisonView::IsTrue,
            CompareOp::IsNotTrue => ComparisonView::IsNotTrue,
            CompareOp::IsFalse => ComparisonView::IsFalse,
            CompareOp::IsNotFalse => ComparisonView::IsNotFalse,
        }
    }
}

/// The operator that compares the same way with its operands swapped: `<` and
/// `>` trade places, as do `<=` and `>=`; `=` and `<>` stay.
pub open spec fn mirrored(op: BinaryOperator) -> BinaryOperator {
    match op {
        BinaryOperator::Lt => BinaryOperator::Gt,
        BinaryOperator::LtEq => BinaryOperator::GtEq,
        BinaryOperator::Gt => BinaryOperator::Lt,
        BinaryOperator::GtEq => BinaryOperator::LtEq,
        _ => op,
    }
}

/// `column op value` for one of the six comparison operators.
pub open spec fn comparison_with(op: BinaryOperator, value: Seq<char>) -> ComparisonView {
    match op {
        BinaryOperator::Lt => ComparisonView::Lt(value),
        BinaryOperator::LtEq => ComparisonView::LtEq(value),
        BinaryOperator::Gt => ComparisonView::Gt(value),
        BinaryOperator::GtEq => ComparisonView::GtEq(value),
        BinaryOperator::Eq => ComparisonView::Eq(value),
        _ => ComparisonView::NotEq(value),
    }
}

/// The comparison for `column op value`, or for `value op column` when
/// `reverse` holds.
pub open spec fn binary_comparison(op: BinaryOperator, value: Seq<char>, reverse: bool) -> Result<ComparisonView, Failure> {
    if !supported_binary(op) {
        Err(Failure::Unsupported("the "@ + operator_sql(op) + " operator."@))
    } else if reverse {
        Ok(comparison_with(mirrored(op), value))
    } else {
        Ok(comparison_with(op, value))
    }
}

/// The comparison that an `IS ...` predicate makes.
pub open spec fn unary_comparison(e: Expr) -> Result<ComparisonView, Failure> {
    match e.kind {
        ExprKind::IsNull(_) => Ok(ComparisonView::IsNull),
        ExprKind::IsNotNull(_) => Ok(ComparisonView::IsNotNull),
        ExprKind::IsTrue(_) => Ok(ComparisonView::IsTrue),
        ExprKind::IsNotTrue(_) => Ok(ComparisonView::IsNotTrue),
        ExprKind::IsFalse(_) => Ok(ComparisonView::IsFalse),
        ExprKind::IsNotFalse(_) => Ok(ComparisonView::IsNotFalse),
        _ => Err(Failure::Unsupported("the "@ + e.text@ + " operator."@)),
    }
}

impl CompareOp {
    /// The comparison for `column op value`; with `reverse`, for `value op column`.
    pub fn from_binary_operator(op: &BinaryOperator, value: String, reverse: bool) -> (r: Result<Self, ParseError>)
        ensures
            match r {
                Ok(c) => binary_comparison(*op, value@, reverse) == Ok::<_, Failure>(c@),
                Err(e) => binary_comparison(*op, value@, reverse) == Err::<ComparisonView, _>(e@),
            },
    {
        let comparison = match op {
            BinaryOperator::Lt => if reverse { CompareOp::Gt { value } } else { CompareOp::Lt { value } },
            BinaryOperator::LtEq => if reverse { CompareOp::GtEq { value } } else { CompareOp::LtEq { value } },
            BinaryOperator::Gt => if reverse { CompareOp::Lt { value } } else { CompareOp::Gt { value } },
            BinaryOperator::GtEq => if reverse { CompareOp::LtEq { value } } else { CompareOp::GtEq { value } },
            BinaryOperator::Eq => CompareOp::Eq { value },
            BinaryOperator::NotEq => CompareOp::NotEq { value },
            BinaryOperator::Other(t) => {
                return Err(ParseError::Unsupported {
                    message: String::from_str("the ").concat(t.as_str()).concat(" operator."),
                });
            },
        };
        Ok(comparison)
    }

    /// The comparison of an `IS ...` predicate.
    pub fn from_expr(op: &Expr) -> (r: Result<Self, ParseError>)
        ensures
            match r {
                Ok(c) => unary_comparison(*op) == Ok::<_, Failure>(c@),
                Err(e) => unary_comparison(*op) == Err::<ComparisonView, _>(e@),
            },
    {
        let comparison = match &op.kind {
            ExprKind::IsNull(_) => CompareOp::IsNull,
            ExprKind::IsNotNull(_) => CompareOp::IsNotNull,
            ExprKind::IsTrue(_) => CompareOp::IsTrue,
            ExprKind::IsNotTrue(_) => CompareOp::IsNotTrue,
            ExprKind::IsFalse(_) => CompareOp::IsFalse,
            ExprKind::IsNotFalse(_) => CompareOp::IsNotFalse,
            _ => {
                return Err(ParseError::Unsupported {
                    message: String::from_str("the ").concat(op.text.as_str()).concat(" operator."),
                });
            },
        };
        Ok(comparison)
    }

    /// How the comparison is named for people.
    pub fn to_string(&self) -> (r: String)
        ensures
            r@ == comparison_name(self@),
    {
        match self {
            CompareOp::Lt { .. } => String::from_str("Less than"),
            CompareOp::LtEq { .. } => String::from_str("Less than or equal"),
            CompareOp::Gt { .. } => String::from_str("Greater than"),
            CompareOp::GtEq { .. } => String::from_str("Greater than or equal"),
            CompareOp::Eq { .. } => String::from_str("Equal"),
            CompareOp::NotEq { .. } => String::from_str("Not equal"),
            CompareOp::IsNull => String::from_str("Is null"),
            CompareOp::IsNotNull => String::from_str("Is not null"),
            CompareOp::IsTrue => String::from_str("Is true"),
            CompareOp::IsNotTrue => String::from_str("Is not true"),
            CompareOp::IsFalse => String::from_str("Is false"),
            CompareOp::IsNotFalse => String::from_str("Is not false"),
        }
    }
}

/// How each comparison is named for people.
pub open spec fn comparison_name(c: ComparisonView) -> Seq<char> {
    match c {
        ComparisonView::Lt(_) => "Less than"@,
        ComparisonView::LtEq(_) => "Less than or equal"@,
        ComparisonView::Gt(_) => "Greater than"@,
        ComparisonView::GtEq(_) => "Greater than or equal"@,
        ComparisonView::Eq(_) => "Equal"@,
        ComparisonView::NotEq(_) => "Not equal"@,
        ComparisonView::IsNull => "Is null"@,
        ComparisonView::IsNotNull => "Is not null"@,
        ComparisonView::IsTrue => "Is true"@,
        ComparisonView::IsNotTrue => "Is not true"@,
        ComparisonView::IsFalse => "Is false"@,
        ComparisonView::IsNotFalse => "Is not false"@,
    }
}

/// One side of a comparison: a column, or anything else.
#[derive(Debug)]
pub enum ComparisonOperand<'a> {
    Column(String),
    /// A constant, or another expression.
    Other(&'a Expr),
}

/// The mathematical value of a `ComparisonOperand`.
pub enum OperandView {
    Column(Seq<char>),
    Other(Expr),
}

impl<'a> View for ComparisonOperand<'a> {
    type V = OperandView;

    open spec fn view(&self) -> OperandView {
        match self {
            ComparisonOperand::Column(c) => OperandView::Column(c@),
            ComparisonOperand::Other(e) => OperandView::Other(**e),
        }
    }
}

/// What one side of a comparison is, once its parentheses are removed.
pub open spec fn operand_of(from: FromRef, e: Expr) -> Result<OperandView, Failure> {
    let s = stripped(e);
    match s.kind {
        ExprKind::Identifier(id) => Ok(OperandView::Column(folded(id))),
        ExprKind::CompoundIdentifier(parts) => match qualified_column(from, s.text@, parts@) {
            Ok(c) => Ok(OperandView::Column(c)),
            Err(x) => Err(x),
        },
        _ => Ok(OperandView::Other(s)),
    }
}

impl<'a> ComparisonOperand<'a> {
    /// Tells a column reference from any other operand.
    pub fn from_expression(from_clause_identifier: FromClauseIdentifier, expr: &'a Expr) -> (r: Result<Self, ParseError>)
        ensures
            match r {
                Ok(o) => operand_of(from_clause_identifier@, *expr) == Ok::<_, Failure>(o@),
                Err(e) => operand_of(from_clause_identifier@, *expr) == Err::<OperandView, _>(e@),
            },
    {
        let expr = remove_outer_parens(expr);
        match &expr.kind {
            ExprKind::Identifier(ident) => Ok(ComparisonOperand::Column(case_fold_identifier(ident))),
            ExprKind::CompoundIdentifier(name_parts) => {
                match extract_qualified_column(from_clause_identifier, expr, name_parts) {
                    Ok(c) => Ok(ComparisonOperand::Column(c)),
                    Err(e) => Err(e),
                }
            },
            _ => Ok(ComparisonOperand::Other(expr)),
        }
    }
}

/// The column and the other operand of a comparison, and whether the column
/// stood on the right.
pub open spec fn column_and_value(whole: Expr, left: OperandView, right: OperandView) -> Result<(Seq<char>, Expr, bool), Failure> {
    match (left, right) {
        (OperandView::Column(c), OperandView::Other(v)) => Ok((c, v, false)),
        (OperandView::Other(v), OperandView::Column(c)) => Ok((c, v, true)),
        _ => Err(Failure::Unsupported(
            whole.text@ + ". Only comparisons between a column and a constant are supported."@,
        )),
    }
}

/// Puts the column on the left of a comparison between a column and a constant.
pub fn analyze_comparison_operands<'a>(
    binary_expr: &'a Expr,
    left: ComparisonOperand<'a>,
    right: ComparisonOperand<'a>,
) -> (r: Result<(String, &'a Expr, bool), ParseError>)
    ensures
        match r {
            Ok((c, v, rev)) => column_and_value(*binary_expr, left@, right@) == Ok::<_, Failure>((c@, *v, rev)),
            Err(e) => column_and_value(*binary_expr, left@, right@) == Err::<(Seq<char>, Expr, bool), _>(e@),
        },
{
    match (left, right) {
        (ComparisonOperand::Column(column), ComparisonOperand::Other(value)) => Ok((column, value, false)),
        (ComparisonOperand::Other(value), ComparisonOperand::Column(column)) => Ok((column, value, true)),
        _ => Err(ParseError::Unsupported {
            message: binary_expr.text.clone().concat(
                ". Only comparisons between a column and a constant are supported.",
            ),
        }),
    }
}

} // verus!
