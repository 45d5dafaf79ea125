//! The predicate of the `WHERE` clause.
use vstd::prelude::*;
use crate::comparison::{
    analyze_comparison_operands, binary_comparison, column_and_value, is_binary_operator_supported,
    is_expression_supported, mirrored, operand_of, operator_sql, supported_binary, unary_comparison,
    unary_predicate, CompareOp, ComparisonOperand, ComparisonView, OperandView,
};
use crate::error::{result_view, Failure, ParseError};
use crate::query_metadata::{FromClauseIdentifier, FromRef};
use crate::support::{lemma_parens_around_strip, parens_around, remove_outer_parens, stripped};
use crate::syntax::{BinaryOperator, Expr, ExprKind, UnaryOperator, Value};

verus! {

/// The filter that a query applies.
#[derive(Clone, Debug, PartialEq, Eq)]
pub struct Filter {
    /// The column on which the filter is applied.
    pub column: String,
    /// The comparison applied to the column.
    pub comparison: CompareOp,
}

/// The mathematical value of a `Filter`.
pub struct FilterView {
    pub column: Seq<char>,
    pub comparison: ComparisonView,
}

impl View for Filter {
    type V = FilterView;

    open spec fn view(&self) -> FilterView {
        FilterView { column: self.column@, comparison: self.comparison@ }
    }
}

pub open spec fn expected_a_value(text: Seq<char>) -> Failure {
    Failure::Unsupported("Expected a value, got "@ + text)
}

/// The text of a constant: a literal, or a number with a sign. A `-` sign is
/// kept and a `+` sign dropped; `NULL` reads `Null`.
pub open spec fn constant_of(e: Expr) -> Result<Seq<char>, Failure> {
    match e.kind {
        ExprKind::UnaryOp { op, expr } => match (op, expr.kind) {
            (UnaryOperator::Plus, ExprKind::Value(Value::Number(v))) => Ok(v@),
            (UnaryOperator::Minus, ExprKind::Value(Value::Number(v))) => Ok("-"@ + v@),
            _ => Err(expected_a_value(e.text@)),
        },
        ExprKind::Value(v) => match v {
            Value::Number(t) => Ok(t@),
            Value::Text(t) => Ok(t@),
            Value::Boolean(b) => Ok(if b { "true"@ } else { "false"@ }),
            Value::Null => Ok("Null"@),
            Value::Placeholder(t) => Err(expected_a_value(t@)),
        },
        _ => Err(expected_a_value(e.text@)),
    }
}

/// The filter that `left op right` applies, with the column on either side.
pub open spec fn binary_filter(from: FromRef, whole: Expr, left: Expr, op: BinaryOperator, right: Expr) -> Result<FilterView, Failure> {
    if !supported_binary(op) {
        Err(Failure::Unsupported("the "@ + operator_sql(op) + " operator."@))
    } else {
        match (operand_of(from, left), operand_of(from, right)) {
            (Err(e), _) => Err(e),
            (Ok(_), Err(e)) => Err(e),
            (Ok(l), Ok(r)) => match column_and_value(whole, l, r) {
                Err(e) => Err(e),
                Ok((column, value, reverse)) => match constant_of(value) {
                    Err(e) => Err(e),
                    Ok(text) => match binary_comparison(op, text, reverse) {
                        Ok(comparison) => Ok(FilterView { column, comparison }),
                        Err(e) => Err(e),
                    },
                },
            },
        }
    }
}

/// The filter that an `IS ...` predicate on a column applies.
pub open spec fn unary_filter(from: FromRef, whole: Expr, operand: Expr) -> Result<FilterView, Failure> {
    if !unary_predicate(whole) {
        Err(Failure::Unsupported("the "@ + whole.text@ + " operator."@))
    } else {
        match operand_of(from, operand) {
            Err(e) => Err(e),
            Ok(OperandView::Other(_)) => Err(Failure::Unsupported(whole.text@ + ". Column must be specified."@)),
            Ok(OperandView::Column(column)) => match unary_comparison(whole) {
                Ok(comparison) => Ok(FilterView { column, comparison }),
                Err(e) => Err(e),
            },
        }
    }
}

/// The filter that a `WHERE` expression applies, once its parentheses are
/// removed.
pub open spec fn filter_of(from: FromRef, selection: Expr) -> Result<FilterView, Failure> {
    let s = stripped(selection);
    match s.kind {
        ExprKind::BinaryOp { left, op, right } => binary_filter(from, s, *left, op, *right),
        ExprKind::IsNull(a) => unary_filter(from, s, *a),
        ExprKind::IsNotNull(a) => unary_filter(from, s, *a),
        ExprKind::IsTrue(a) => unary_filter(from, s, *a),
        ExprKind::IsNotTrue(a) => unary_filter(from, s, *a),
        ExprKind::IsFalse(a) => unary_filter(from, s, *a),
        ExprKind::IsNotFalse(a) => unary_filter(from, s, *a),
        _ => Err(Failure::Unsupported("unsupported expression in the WHERE clause: "@ + s.text@ + "."@)),
    }
}

/// Extracts the filter of a `WHERE` clause, checking its column against the
/// `FROM` clause.
pub struct FilterExtractor<'a> {
    from_clause_identifier: FromClauseIdentifier<'a>,
}

impl<'a> FilterExtractor<'a> {
    pub closed spec fn from(&self) -> FromRef {
        self.from_clause_identifier@
    }

    pub fn new(from_clause_identifier: FromClauseIdentifier<'a>) -> (r: Self)
        ensures
            r.from() == from_clause_identifier@,
    {
        FilterExtractor { from_clause_identifier }
    }

    /// The filter of a `WHERE` expression.
    pub fn extract(&self, selection: &Expr) -> (r: Result<Filter, ParseError>)
        ensures
            result_view(r) == filter_of(self.from(), *selection),
    {
        let selection = remove_outer_parens(selection);
        match &selection.kind {
            ExprKind::BinaryOp { left, op, right } => self.extract_binary_comparison(selection, left, op, right),
            ExprKind::IsNull(a) => self.extract_unary_comparison(selection, a),
            ExprKind::IsNotNull(a) => self.extract_unary_comparison(selection, a),
            ExprKind::IsTrue(a) => self.extract_unary_comparison(selection, a),
            ExprKind::IsNotTrue(a) => self.extract_unary_comparison(selection, a),
            ExprKind::IsFalse(a) => self.extract_unary_comparison(selection, a),
            ExprKind::IsNotFalse(a) => self.extract_unary_comparison(selection, a),
            _ => Err(ParseError::Unsupported {
                message: String::from_str("unsupported expression in the WHERE clause: ").concat(
                    selection.text.as_str(),
                ).concat("."),
            }),
        }
    }

    /// The filter of `left op right`, where one side is a column and the other
    /// a constant.
    pub fn extract_binary_comparison(
        &self,
        binary_expr: &Expr,
        left: &Expr,
        op: &BinaryOperator,
        right: &Expr,
    ) -> (r: Result<Filter, ParseError>)
        ensures
            result_view(r) == binary_filter(self.from(), *binary_expr, *left, *op, *right),
    {
        if !is_binary_operator_supported(op) {
            let text = op.to_string();
            return Err(ParseError::Unsupported {
                message: String::from_str("the ").concat(text.as_str()).concat(" operator."),
            });
        }
        let left = ComparisonOperand::from_expression(self.from_clause_identifier, left)?;
        let right = ComparisonOperand::from_expression(self.from_clause_identifier, right)?;
        let (column, value, reverse) = analyze_comparison_operands(binary_expr, left, right)?;
        let text = Self::extract_constant_value(value)?;
        let comparison = CompareOp::from_binary_operator(op, text, reverse)?;
        Ok(Filter { column, comparison })
    }

    /// The filter of an `IS ...` predicate, which must apply to a column.
    pub fn extract_unary_comparison(&self, single_filter_expr: &Expr, applied_on: &Expr) -> (r: Result<Filter, ParseError>)
        ensures
            result_view(r) == unary_filter(self.from(), *single_filter_expr, *applied_on),
    {
        if !is_expression_supported(single_filter_expr) {
            return Err(ParseError::Unsupported {
                message: String::from_str("the ").concat(single_filter_expr.text.as_str()).concat(" operator."),
            });
        }
        let operand = ComparisonOperand::from_expression(self.from_clause_identifier, applied_on)?;
        let column = match operand {
            ComparisonOperand::Column(column) => column,
            ComparisonOperand::Other(_) => {
                return Err(ParseError::Unsupported {
                    message: single_filter_expr.text.clone().concat(". Column must be specified."),
                });
            },
        };
        let comparison = CompareOp::from_expr(single_filter_expr)?;
        Ok(Filter { column, comparison })
    }

    /// The text of a constant operand.
    pub fn extract_constant_value(expr: &Expr) -> (r: Result<String, ParseError>)
        ensures
            result_view(r) == constant_of(*expr),
    {
        match &expr.kind {
            ExprKind::UnaryOp { op, expr: operand } => {
                let sign = match op {
                    UnaryOperator::Plus => "",
                    UnaryOperator::Minus => "-",
                    UnaryOperator::Other(_) => {
                        return Err(ParseError::Unsupported {
                            message: String::from_str("Expected a value, got ").concat(expr.text.as_str()),
                        });
                    },
                };
                match &operand.kind {
                    ExprKind::Value(Value::Number(v)) => {
                        proof {
                            reveal_strlit("");
                        }
                        Ok(String::from_str(sign).concat(v.as_str()))
                    },
                    _ => Err(ParseError::Unsupported {
                        message: String::from_str("Expected a value, got ").concat(expr.text.as_str()),
                    }),
                }
            },
            ExprKind::Value(value) => match value {
                Value::Number(t) => Ok(t.clone()),
                Value::Text(t) => Ok(t.clone()),
                Value::Boolean(b) => Ok(if *b { String::from_str("true") } else { String::from_str("false") }),
                Value::Null => Ok(String::from_str("Null")),
                Value::Placeholder(t) => Err(ParseError::Unsupported {
                    message: String::from_str("Expected a value, got ").concat(t.as_str()),
                }),
            },
            _ => Err(ParseError::Unsupported {
                message: String::from_str("Expected a value, got ").concat(expr.text.as_str()),
            }),
        }
    }
}

} // verus!

verus! {

/// Whether an operand names a column, once its parentheses are removed.
pub open spec fn is_column_reference(e: Expr) -> bool {
    stripped(e).kind is Identifier || stripped(e).kind is CompoundIdentifier
}

/// `value op column` yields the same filter as `column op' value`, where `op'`
/// is `op` mirrored; `=` and `<>` are their own mirror.
pub proof fn lemma_comparison_symmetric(
    from: FromRef,
    swapped: Expr,
    straight: Expr,
    column: Expr,
    op: BinaryOperator,
    value: Expr,
)
    requires
        supported_binary(op),
        is_column_reference(column),
        !is_column_reference(value),
    ensures
        binary_filter(from, swapped, value, op, column) == binary_filter(from, straight, column, mirrored(op), value),
        mirrored(BinaryOperator::Eq) == BinaryOperator::Eq,
        mirrored(BinaryOperator::NotEq) == BinaryOperator::NotEq,
{
}

/// The same, for whole `WHERE` expressions, with any parentheses around them.
pub proof fn lemma_where_symmetric(from: FromRef, swapped: Expr, straight: Expr)
    requires
        stripped(swapped).kind is BinaryOp,
        stripped(straight).kind is BinaryOp,
        supported_binary(stripped(swapped).kind->BinaryOp_op),
        stripped(straight).kind->BinaryOp_op == mirrored(stripped(swapped).kind->BinaryOp_op),
        *stripped(straight).kind->BinaryOp_left == *stripped(swapped).kind->BinaryOp_right,
        *stripped(straight).kind->BinaryOp_right == *stripped(swapped).kind->BinaryOp_left,
        is_column_reference(*stripped(swapped).kind->BinaryOp_right),
        !is_column_reference(*stripped(swapped).kind->BinaryOp_left),
    ensures
        filter_of(from, swapped) == filter_of(from, straight),
{
    let s = stripped(swapped);
    lemma_comparison_symmetric(
        from,
        s,
        stripped(straight),
        *s.kind->BinaryOp_right,
        s.kind->BinaryOp_op,
        *s.kind->BinaryOp_left,
    );
}

/// Parentheses around the `WHERE` expression change nothing that is extracted.
pub proof fn lemma_parenthesized_where(from: FromRef, outer: Expr, inner: Expr)
    requires
        parens_around(outer, inner),
    ensures
        filter_of(from, outer) == filter_of(from, inner),
{
    lemma_parens_around_strip(outer, inner);
}

} // verus!
