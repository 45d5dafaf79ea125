//! Reduction of a query to its `SELECT` list, `FROM` clause and `WHERE` clause.
use vstd::prelude::*;
use crate::error::{Failure, ParseError};
use crate::support::{join, joined, texts};
use crate::syntax::{Expr, GroupByExpr, Query, Select, SelectItem, SetExpr, TableWithJoins};

verus! {

pub open spec fn unsupported(message: Seq<char>) -> Failure {
    Failure::Unsupported(message)
}

/// The `SELECT` block of a query, or the first clause that keeps it out of the
/// supported subset. A parenthesized query is looked into.
pub open spec fn select_of_query(q: Query) -> Result<Select, Failure>
    decreases q,
{
    if q.with is Some {
        Err(unsupported("CTEs (i.e., WITH clause)."@))
    } else if q.order_by@.len() != 0 {
        Err(unsupported("ORDER BY."@))
    } else if q.limit is Some {
        Err(unsupported("LIMIT."@))
    } else if q.offset is Some {
        Err(unsupported("OFFSET."@))
    } else if q.fetch is Some {
        Err(unsupported("FETCH."@))
    } else if q.locks@.len() != 0 {
        Err(unsupported("locking clauses (i.e., "@ + joined(texts(q.locks@), ", "@) + ")."@))
    } else if q.limit_by@.len() != 0 {
        Err(unsupported("limit by clauses (i.e., "@ + joined(texts(q.limit_by@), ", "@) + ")."@))
    } else if q.for_clause is Some {
        Err(unsupported("FOR clause."@))
    } else {
        select_of_body(*q.body)
    }
}

/// The `SELECT` block of a query body.
pub open spec fn select_of_body(b: SetExpr) -> Result<Select, Failure>
    decreases b,
{
    match b {
        SetExpr::Select(s) => select_of_select(*s),
        SetExpr::Query(q) => select_of_query(*q),
        SetExpr::SetOperation { op } => Err(unsupported("set operations (i.e., "@ + op@ + ")."@)),
        SetExpr::Values => Err(unsupported("VALUES."@)),
        SetExpr::Insert | SetExpr::Update => Err(unsupported("statements different from single SELECT statement."@)),
        SetExpr::Table => Err(unsupported("TABLE (i.e., SELECT * FROM table_name)."@)),
    }
}

/// A `SELECT` block with none of the clauses that are not supported.
pub open spec fn select_of_select(s: Select) -> Result<Select, Failure> {
    if s.distinct is Some {
        Err(unsupported("DISTINCT."@))
    } else if s.top is Some {
        Err(unsupported("TOP."@))
    } else if s.into is Some {
        Err(unsupported("SELECT INTO."@))
    } else if s.lateral_views@.len() != 0 {
        Err(unsupported("LATERAL VIEW."@))
    } else if s.group_by is All {
        Err(unsupported("ALL."@))
    } else if s.group_by->Expressions_0@.len() != 0 {
        Err(unsupported("GROUP BY."@))
    } else if s.cluster_by@.len() != 0 {
        Err(unsupported("CLUSTER BY."@))
    } else if s.distribute_by@.len() != 0 {
        Err(unsupported("DISTRIBUTE BY."@))
    } else if s.sort_by@.len() != 0 {
        Err(unsupported("SORT BY."@))
    } else if s.having is Some {
        Err(unsupported("HAVING."@))
    } else if s.qualify is Some {
        Err(unsupported("QUALIFY."@))
    } else if s.named_window@.len() != 0 {
        Err(unsupported("AS (OVER (PARTITION BY .. ORDER BY .. etc.))."@))
    } else {
        Ok(s)
    }
}

/// The three clauses of a supported query, borrowed from it.
pub struct DestructuredQuery<'a> {
    /// The `SELECT` list.
    pub projection: &'a Vec<SelectItem>,
    /// The `FROM` clause.
    pub from: &'a Vec<TableWithJoins>,
    /// The `WHERE` clause.
    pub selection: Option<&'a Expr>,
}

/// Whether an optional borrowed expression is the optional expression `e`.
pub open spec fn same_expr(r: Option<&Expr>, e: Option<Expr>) -> bool {
    match (r, e) {
        (Some(a), Some(b)) => *a == b,
        (None, None) => true,
        _ => false,
    }
}

impl<'a> DestructuredQuery<'a> {
    /// Whether these are the clauses of `s`.
    pub open spec fn clauses_of(&self, s: Select) -> bool {
        &&& *self.projection == s.projection
        &&& *self.from == s.from
        &&& same_expr(self.selection, s.selection)
    }

    /// Checks a query clause by clause and returns its `SELECT` list, `FROM`
    /// clause and `WHERE` clause.
    pub fn destructure(query: &'a Query) -> (r: Result<Self, ParseError>)
        ensures
            match r {
                Ok(d) => select_of_query(*query) is Ok && d.clauses_of(select_of_query(*query)->Ok_0),
                Err(e) => select_of_query(*query) == Err::<Select, _>(e@),
            },
        decreases query,
    {
        if query.with.is_some() {
            return Err(ParseError::Unsupported { message: String::from_str("CTEs (i.e., WITH clause).") });
        }
        if query.order_by.len() != 0 {
            return Err(ParseError::Unsupported { message: String::from_str("ORDER BY.") });
        }
        if query.limit.is_some() {
            return Err(ParseError::Unsupported { message: String::from_str("LIMIT.") });
        }
        if query.offset.is_some() {
            return Err(ParseError::Unsupported { message: String::from_str("OFFSET.") });
        }
        if query.fetch.is_some() {
            return Err(ParseError::Unsupported { message: String::from_str("FETCH.") });
        }
        if query.locks.len() != 0 {
            let listed = join(&query.locks, ", ");
            return Err(ParseError::Unsupported {
                message: String::from_str("locking clauses (i.e., ").concat(listed.as_str()).concat(")."),
            });
        }
        if query.limit_by.len() != 0 {
            let listed = join(&query.limit_by, ", ");
            return Err(ParseError::Unsupported {
                message: String::from_str("limit by clauses (i.e., ").concat(listed.as_str()).concat(")."),
            });
        }
        if query.for_clause.is_some() {
            return Err(ParseError::Unsupported { message: String::from_str("FOR clause.") });
        }
        Self::destructure_set_expr(&query.body)
    }

    /// Looks into a query body for its `SELECT` block.
    pub fn destructure_set_expr(set_expr: &'a SetExpr) -> (r: Result<Self, ParseError>)
        ensures
            match r {
                Ok(d) => select_of_body(*set_expr) is Ok && d.clauses_of(select_of_body(*set_expr)->Ok_0),
                Err(e) => select_of_body(*set_expr) == Err::<Select, _>(e@),
            },
        decreases set_expr,
    {
        match set_expr {
            SetExpr::Select(select) => Self::destructure_select(select),
            SetExpr::Query(query) => Self::destructure(query),
            SetExpr::SetOperation { op } => Err(ParseError::Unsupported {
                message: String::from_str("set operations (i.e., ").concat(op.as_str()).concat(")."),
            }),
            SetExpr::Values => Err(ParseError::Unsupported { message: String::from_str("VALUES.") }),
            SetExpr::Insert | SetExpr::Update => Err(ParseError::Unsupported {
                message: String::from_str("statements different from single SELECT statement."),
            }),
            SetExpr::Table => Err(ParseError::Unsupported {
                message: String::from_str("TABLE (i.e., SELECT * FROM table_name)."),
            }),
        }
    }

    /// Rejects the `SELECT`-level clauses that are not supported.
    pub fn destructure_select(select: &'a Select) -> (r: Result<Self, ParseError>)
        ensures
            match r {
                Ok(d) => select_of_select(*select) is Ok && d.clauses_of(*select),
                Err(e) => select_of_select(*select) == Err::<Select, _>(e@),
            },
    {
        let fail = |message: &str| -> (e: ParseError)
            ensures
                e@ == Failure::Unsupported(message@),
        { ParseError::Unsupported { message: String::from_str(message) } };
        if select.distinct.is_some() {
            return Err(fail("DISTINCT."));
        }
        if select.top.is_some() {
            return Err(fail("TOP."));
        }
        if select.into.is_some() {
            return Err(fail("SELECT INTO."));
        }
        if select.lateral_views.len() != 0 {
            return Err(fail("LATERAL VIEW."));
        }
        match &select.group_by {
            GroupByExpr::All => {
                return Err(fail("ALL."));
            },
            GroupByExpr::Expressions(exprs) => {
                if exprs.len() != 0 {
                    return Err(fail("GROUP BY."));
                }
            },
        }
        if select.cluster_by.len() != 0 {
            return Err(fail("CLUSTER BY."));
        }
        if select.distribute_by.len() != 0 {
            return Err(fail("DISTRIBUTE BY."));
        }
        if select.sort_by.len() != 0 {
            return Err(fail("SORT BY."));
        }
        if select.having.is_some() {
            return Err(fail("HAVING."));
        }
        if select.qualify.is_some() {
            return Err(fail("QUALIFY."));
        }
        if select.named_window.len() != 0 {
            return Err(fail("AS (OVER (PARTITION BY .. ORDER BY .. etc.))."));
        }
        Ok(DestructuredQuery {
            projection: &select.projection,
            from: &select.from,
            selection: match &select.selection {
                Some(e) => Some(e),
                None => None,
            },
        })
    }
}

} // verus!

verus! {

/// Whether `outer` only puts parentheses around `inner`: it has no clause of its
/// own and its body is `inner`.
pub open spec fn parenthesized_query(outer: Query, inner: Query) -> bool {
    &&& outer.with is None
    &&& outer.order_by@.len() == 0
    &&& outer.limit is None
    &&& outer.limit_by@.len() == 0
    &&& outer.offset is None
    &&& outer.fetch is None
    &&& outer.locks@.len() == 0
    &&& outer.for_clause is None
    &&& *outer.body == SetExpr::Query(Box::new(inner))
}

/// A query in parentheses reduces to the same `SELECT` block as the query.
pub proof fn lemma_parenthesized_query(outer: Query, inner: Query)
    requires
        parenthesized_query(outer, inner),
    ensures
        select_of_query(outer) == select_of_query(inner),
{
}

} // verus!
