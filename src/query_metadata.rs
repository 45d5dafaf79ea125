//! The analysis of a whole statement, and the queries regenerated from it.
use vstd::prelude::*;
use crate::aggregation::{
    aggregation_of, lemma_parenthesized_call, only_one_aggregation, Aggregation, AggregationView,
    KoronFunction,
};
use crate::destructured_query::{
    lemma_parenthesized_query, parenthesized_query, select_of_query, DestructuredQuery,
};
use crate::error::{result_view, Failure, ParseError};
use crate::filter::{filter_of, Filter, FilterExtractor, FilterView};
use crate::support::{
    case_fold_identifier, folded, ident_sql, join, joined, parens_around, render_ident, render_value_as_ident,
    rendered_ident, texts, valid_quote,
};
use crate::syntax::{Expr, Ident, Query, Select, SelectItem, Statement, TableWithJoins};
use crate::table::{
    name_parts, opt_text, table_of_from, table_text, TabIdent, TableIdentWithAlias, TableView,
};

verus! {

/// What a qualified column reference is checked against: the table itself, or
/// the alias given to it in the `FROM` clause.
#[derive(Clone, Copy)]
pub enum FromClauseIdentifier<'a> {
    Base(&'a TabIdent),
    Alias { alias: &'a String },
}

/// The mathematical value of a `FromClauseIdentifier`.
pub enum FromRef {
    Base(TableView),
    Alias(Seq<char>),
}

/// A qualifier part matches an expected part when either is absent, or when the
/// folded part equals it.
pub open spec fn part_matches(part: Option<&Ident>, expected: Option<Seq<char>>) -> bool {
    match (part, expected) {
        (Some(p), Some(e)) => folded(*p) == e,
        _ => true,
    }
}

impl FromRef {
    /// Whether `db.schema.table` (each part optional but `table`) may name the
    /// table of the `FROM` clause.
    pub open spec fn matches_parts(self, db: Option<&Ident>, schema: Option<&Ident>, table: &Ident) -> bool {
        match self {
            FromRef::Base(expected) => {
                &&& part_matches(db, expected.db)
                &&& part_matches(schema, expected.schema)
                &&& folded(*table) == expected.table
            },
            FromRef::Alias(alias) => schema is None && folded(*table) == alias,
        }
    }

    /// How the reference is named in diagnostics.
    pub open spec fn text(self) -> Seq<char> {
        match self {
            FromRef::Base(t) => table_text(t),
            FromRef::Alias(alias) => alias,
        }
    }
}

impl<'a> View for FromClauseIdentifier<'a> {
    type V = FromRef;

    open spec fn view(&self) -> FromRef {
        match self {
            FromClauseIdentifier::Base(t) => FromRef::Base(t@),
            FromClauseIdentifier::Alias { alias } => FromRef::Alias(alias@),
        }
    }
}

impl<'a> FromClauseIdentifier<'a> {
    /// Checks a column's qualifier against the `FROM` clause. An absent part of
    /// the table's name matches any part; an alias is never schema-qualified.
    pub fn matches(self, db: Option<&Ident>, schema: Option<&Ident>, table: &Ident) -> (r: bool)
        ensures
            r == self@.matches_parts(db, schema, table),
    {
        match self {
            FromClauseIdentifier::Base(expected) => {
                let db_matches = match (db, &expected.db) {
                    (Some(d), Some(e)) => case_fold_identifier(d) == *e,
                    _ => true,
                };
                let schema_matches = match (schema, &expected.schema) {
                    (Some(s), Some(e)) => case_fold_identifier(s) == *e,
                    _ => true,
                };
                let table_matches = case_fold_identifier(table) == expected.table;
                db_matches && schema_matches && table_matches
            },
            FromClauseIdentifier::Alias { alias } => {
                schema.is_none() && case_fold_identifier(table) == *alias
            },
        }
    }

    /// The table's dotted name, or the alias.
    pub fn text(&self) -> (r: String)
        ensures
            r@ == self@.text(),
    {
        match self {
            FromClauseIdentifier::Base(t) => t.to_string(),
            FromClauseIdentifier::Alias { alias } => (*alias).clone(),
        }
    }
}

} // verus!

verus! {

/// What the analysis of a supported statement extracts.
#[derive(Clone, Debug, PartialEq, Eq, Default)]
pub struct QueryMetadata {
    /// The aggregation performed.
    pub aggregation: Aggregation,
    /// The table that the query reads.
    pub table: TabIdent,
    /// The filter applied, if any.
    pub filter: Option<Filter>,
    /// A query for the raw values that the aggregation is computed from.
    pub data_extraction_query: String,
    /// A query that has the data source compute the aggregation, as text; absent
    /// for the median.
    pub data_aggregation_query: Option<String>,
}

/// The mathematical value of a `QueryMetadata`.
pub struct MetadataView {
    pub aggregation: AggregationView,
    pub table: TableView,
    pub filter: Option<FilterView>,
    pub data_extraction_query: Seq<char>,
    pub data_aggregation_query: Option<Seq<char>>,
}

/// The view of an optional filter.
pub open spec fn filter_view(f: Option<Filter>) -> Option<FilterView> {
    match f {
        Some(x) => Some(x@),
        None => None,
    }
}

impl View for QueryMetadata {
    type V = MetadataView;

    open spec fn view(&self) -> MetadataView {
        MetadataView {
            aggregation: self.aggregation@,
            table: self.table@,
            filter: filter_view(self.filter),
            data_extraction_query: self.data_extraction_query@,
            data_aggregation_query: opt_text(self.data_aggregation_query),
        }
    }
}

pub open spec fn single_select() -> Failure {
    Failure::Unsupported("statements different from single SELECT statement."@)
}

/// The columns that the data extraction query projects: the aggregation's
/// column, then the filter's column when it is another one.
pub open spec fn extraction_columns(column: Seq<char>, filter: Option<FilterView>) -> Seq<Seq<char>> {
    match filter {
        Some(f) => if f.column != column {
            seq![column, f.column]
        } else {
            seq![column]
        },
        None => seq![column],
    }
}

/// Values rendered as identifiers with the caller's quote.
pub open spec fn quoted_all(values: Seq<Seq<char>>, quote_style: Option<char>) -> Seq<Seq<char>> {
    values.map_values(|v: Seq<char>| rendered_ident(v, quote_style))
}

/// `SELECT column[, filter column] FROM table`, with every identifier rendered
/// with the caller's quote.
pub open spec fn extraction_query(
    column: Seq<char>,
    table: TableView,
    filter: Option<FilterView>,
    quote_style: Option<char>,
) -> Seq<char> {
    "SELECT "@ + joined(quoted_all(extraction_columns(column, filter), quote_style), ", "@) + " FROM "@
        + joined(quoted_all(name_parts(table), quote_style), "."@)
}

/// The `SELECT` item as written, with its expression cast to text and its alias kept.
pub open spec fn cast_item(item: SelectItem) -> Option<Seq<char>> {
    match item {
        SelectItem::UnnamedExpr(e) => Some("CAST("@ + e.text@ + " AS TEXT)"@),
        SelectItem::ExprWithAlias { expr, alias } => Some(
            "CAST("@ + expr.text@ + " AS TEXT) AS "@ + ident_sql(alias),
        ),
        _ => None,
    }
}

/// The texts of the `FROM` entries.
pub open spec fn from_texts(from: Seq<TableWithJoins>) -> Seq<Seq<char>> {
    from.map_values(|t: TableWithJoins| t.text@)
}

/// `SELECT CAST(expr AS TEXT) [AS alias] FROM ... [WHERE ...]`, from the query's own
/// clauses.
pub open spec fn aggregation_query(
    projection: Seq<SelectItem>,
    from: Seq<TableWithJoins>,
    selection: Option<Expr>,
) -> Result<Seq<char>, Failure> {
    if projection.len() != 1 || cast_item(projection[0]) is None {
        Err(only_one_aggregation())
    } else {
        let from_part = if from.len() == 0 {
            Seq::empty()
        } else {
            " FROM "@ + joined(from_texts(from), ", "@)
        };
        let where_part = match selection {
            Some(e) => " WHERE "@ + e.text@,
            None => Seq::empty(),
        };
        Ok("SELECT "@ + cast_item(projection[0])->Some_0 + from_part + where_part)
    }
}

/// The filter of an optional `WHERE` clause.
pub open spec fn optional_filter(from: FromRef, selection: Option<Expr>) -> Result<Option<FilterView>, Failure> {
    match selection {
        None => Ok(None),
        Some(e) => match filter_of(from, e) {
            Ok(f) => Ok(Some(f)),
            Err(x) => Err(x),
        },
    }
}

/// What the analysis of a `SELECT` block yields, once its clauses are checked.
pub open spec fn metadata_of_select(s: Select, quote_style: Option<char>) -> Result<MetadataView, Failure> {
    match table_of_from(s.from@) {
        Err(e) => Err(e),
        Ok((table, alias)) => {
            let from = match alias {
                Some(a) => FromRef::Alias(a),
                None => FromRef::Base(table),
            };
            match aggregation_of(from, s.projection@) {
                Err(e) => Err(e),
                Ok(aggregation) => match optional_filter(from, s.selection) {
                    Err(e) => Err(e),
                    Ok(filter) => {
                        let data_extraction_query = extraction_query(aggregation.column, table, filter, quote_style);
                        if aggregation.function == KoronFunction::Median {
                            Ok(MetadataView { aggregation, table, filter, data_extraction_query, data_aggregation_query: None })
                        } else {
                            match aggregation_query(s.projection@, s.from@, s.selection) {
                                Err(e) => Err(e),
                                Ok(q) => Ok(MetadataView {
                                    aggregation,
                                    table,
                                    filter,
                                    data_extraction_query,
                                    data_aggregation_query: Some(q),
                                }),
                            }
                        }
                    },
                },
            }
        },
    }
}

/// What the analysis of a SQL text's statements yields: the single query must
/// reduce to a supported `SELECT` block.
pub open spec fn metadata_of(statements: Seq<Statement>, quote_style: Option<char>) -> Result<MetadataView, Failure> {
    if statements.len() != 1 || !(statements[0] is Query) {
        Err(single_select())
    } else {
        match select_of_query(*statements[0]->Query_0) {
            Err(e) => Err(e),
            Ok(s) => metadata_of_select(s, quote_style),
        }
    }
}

/// A supported `SELECT` list always has a cast form.
pub proof fn lemma_aggregation_has_cast_item(from: FromRef, projection: Seq<SelectItem>)
    requires
        aggregation_of(from, projection) is Ok,
    ensures
        projection.len() == 1,
        cast_item(projection[0]) is Some,
{
}

impl QueryMetadata {
    /// Analyzes the statements of a SQL text: accepts a single `SELECT` over one
    /// table that computes one aggregation, with at most one simple predicate,
    /// and regenerates the two derived queries with identifiers quoted by
    /// `quote_style`.
    pub fn parse(statements: &Vec<Statement>, quote_style: Option<char>) -> (r: Result<Self, ParseError>)
        requires
            valid_quote(quote_style),
        ensures
            result_view(r) == metadata_of(statements@, quote_style),
            r is Ok ==> (r->Ok_0.data_aggregation_query is Some <==> r->Ok_0.aggregation.function
                != KoronFunction::Median),
    {
        let statement = Self::extract_select_query(statements)?;
        let destructured = DestructuredQuery::destructure(statement)?;
        let projection = destructured.projection;
        let from = destructured.from;
        let selection = destructured.selection;
        let TableIdentWithAlias(table_name, table_alias) = TableIdentWithAlias::extract(from)?;
        let from_clause_identifier = match &table_alias {
            Some(alias) => FromClauseIdentifier::Alias { alias },
            None => FromClauseIdentifier::Base(&table_name),
        };
        let aggregation = Aggregation::extract(from_clause_identifier, projection)?;
        let filter = match selection {
            Some(e) => Some(FilterExtractor::new(from_clause_identifier).extract(e)?),
            None => None,
        };
        let data_extraction_query = Self::create_data_extraction_query(&aggregation, &table_name, &filter, quote_style);
        let data_aggregation_query = match aggregation.function {
            KoronFunction::Median => None,
            _ => {
                proof {
                    lemma_aggregation_has_cast_item(from_clause_identifier@, projection@);
                }
                Some(Self::create_data_aggregation_query(projection, from, selection)?)
            },
        };
        Ok(QueryMetadata { aggregation, table: table_name, filter, data_extraction_query, data_aggregation_query })
    }

    /// The query of a text that holds exactly one statement, a query.
    pub fn extract_select_query(statements: &Vec<Statement>) -> (r: Result<&Query, ParseError>)
        ensures
            match r {
                Ok(q) => statements@.len() == 1 && statements@[0] == Statement::Query(Box::new(*q)),
                Err(e) => e@ == single_select() && !(statements@.len() == 1 && statements@[0] is Query),
            },
    {
        if statements.len() == 1 {
            if let Statement::Query(q) = &statements[0] {
                return Ok(q);
            }
        }
        Err(ParseError::Unsupported {
            message: String::from_str("statements different from single SELECT statement."),
        })
    }

    /// `SELECT column[, filter column] FROM table`: the raw values that the
    /// aggregation is computed from. The filter's column is added only when it is
    /// not the aggregation's column.
    pub fn create_data_extraction_query(
        aggregation: &Aggregation,
        table: &TabIdent,
        filter: &Option<Filter>,
        quote_style: Option<char>,
    ) -> (r: String)
        requires
            valid_quote(quote_style),
        ensures
            r@ == extraction_query(aggregation.column@, table@, filter_view(*filter), quote_style),
    {
        let mut columns: Vec<String> = Vec::new();
        columns.push(render_value_as_ident(&aggregation.column, quote_style));
        if let Some(f) = filter {
            if f.column != aggregation.column {
                columns.push(render_value_as_ident(&f.column, quote_style));
            }
        }
        assert(texts(columns@) =~= quoted_all(extraction_columns(aggregation.column@, filter_view(*filter)), quote_style));
        let parts = table.name_parts();
        let mut names: Vec<String> = Vec::new();
        let mut i: usize = 0;
        while i < parts.len()
            invariant
                i <= parts@.len(),
                names@.len() == i,
                texts(parts@) == name_parts(table@),
                valid_quote(quote_style),
                forall|j: int| 0 <= j < i ==> #[trigger] names@[j]@ == rendered_ident(parts@[j]@, quote_style),
            decreases parts@.len() - i,
        {
            names.push(render_value_as_ident(&parts[i], quote_style));
            i = i + 1;
        }
        assert(texts(names@) =~= quoted_all(name_parts(table@), quote_style));
        let projected = join(&columns, ", ");
        let name = join(&names, ".");
        String::from_str("SELECT ").concat(projected.as_str()).concat(" FROM ").concat(name.as_str())
    }

    /// `SELECT CAST(expr AS TEXT) [AS alias] FROM ... [WHERE ...]`: the query's own
    /// clauses, with the aggregation's result cast to text.
    pub fn create_data_aggregation_query(
        projection: &Vec<SelectItem>,
        from: &Vec<TableWithJoins>,
        selection: Option<&Expr>,
    ) -> (r: Result<String, ParseError>)
        ensures
            result_view(r) == aggregation_query(projection@, from@, match selection {
                Some(e) => Some(*e),
                None => None,
            }),
    {
        if projection.len() != 1 {
            return Err(ParseError::Unsupported {
                message: String::from_str(
                    "the SELECT clause must contain exactly one aggregation / analytic function. Nothing else is accepted.",
                ),
            });
        }
        let item = match &projection[0] {
            SelectItem::UnnamedExpr(e) => String::from_str("CAST(").concat(e.text.as_str()).concat(" AS TEXT)"),
            SelectItem::ExprWithAlias { expr, alias } => {
                let alias_text = render_ident(alias);
                String::from_str("CAST(").concat(expr.text.as_str()).concat(" AS TEXT) AS ").concat(alias_text.as_str())
            },
            _ => {
                return Err(ParseError::Unsupported {
                    message: String::from_str(
                        "the SELECT clause must contain exactly one aggregation / analytic function. Nothing else is accepted.",
                    ),
                });
            },
        };
        let mut from_part = String::new();
        if from.len() != 0 {
            let mut entries: Vec<String> = Vec::new();
            let mut i: usize = 0;
            while i < from.len()
                invariant
                    i <= from@.len(),
                    entries@.len() == i,
                    forall|j: int| 0 <= j < i ==> #[trigger] entries@[j]@ == from@[j].text@,
                decreases from@.len() - i,
            {
                entries.push(from[i].text.clone());
                i = i + 1;
            }
            assert(texts(entries@) =~= from_texts(from@));
            let listed = join(&entries, ", ");
            from_part = String::from_str(" FROM ").concat(listed.as_str());
        }
        let where_part = match selection {
            Some(e) => String::from_str(" WHERE ").concat(e.text.as_str()),
            None => String::new(),
        };
        let query = String::from_str("SELECT ").concat(item.as_str()).concat(from_part.as_str()).concat(
            where_part.as_str(),
        );
        Ok(query)
    }
}

} // verus!

verus! {

/// The data extraction query projects the aggregation's column first, and the
/// filter's column exactly when it is another column; no column twice.
pub proof fn lemma_extraction_columns(column: Seq<char>, filter: Option<FilterView>)
    ensures
        extraction_columns(column, filter)[0] == column,
        extraction_columns(column, filter).len() == 2 <==> (filter is Some && filter->Some_0.column != column),
        extraction_columns(column, filter).len() == 1 <==> !(filter is Some && filter->Some_0.column != column),
        filter is Some ==> extraction_columns(column, filter).contains(filter->Some_0.column),
        forall|i: int, j: int|
            0 <= i < j < extraction_columns(column, filter).len() ==> extraction_columns(column, filter)[i]
                != extraction_columns(column, filter)[j],
{
    if let Some(f) = filter {
        if f.column == column {
            assert(extraction_columns(column, filter)[0] == f.column);
        } else {
            assert(extraction_columns(column, filter)[1] == f.column);
        }
    }
}

/// A supported statement yields the aggregation query exactly when its function
/// is not the median.
pub proof fn lemma_aggregation_query_unless_median(statements: Seq<Statement>, quote_style: Option<char>)
    requires
        metadata_of(statements, quote_style) is Ok,
    ensures
        metadata_of(statements, quote_style)->Ok_0.data_aggregation_query is Some
            <==> metadata_of(statements, quote_style)->Ok_0.aggregation.function != KoronFunction::Median,
{
    let s = select_of_query(*statements[0]->Query_0)->Ok_0;
    let (table, alias) = table_of_from(s.from@)->Ok_0;
    let from = match alias {
        Some(a) => FromRef::Alias(a),
        None => FromRef::Base(table),
    };
    lemma_aggregation_has_cast_item(from, s.projection@);
}

/// A query put in parentheses is analyzed exactly as the query itself.
pub proof fn lemma_parenthesized_statement(outer: Query, inner: Query, quote_style: Option<char>)
    requires
        parenthesized_query(outer, inner),
    ensures
        metadata_of(seq![Statement::Query(Box::new(outer))], quote_style) == metadata_of(
            seq![Statement::Query(Box::new(inner))],
            quote_style,
        ),
{
    lemma_parenthesized_query(outer, inner);
}

/// Parentheses around the `SELECT` item leave everything that is extracted
/// unchanged, and the failure, if any; only the aggregation query, which copies
/// the item as written, may differ.
pub proof fn lemma_parenthesized_projection(
    plain: Select,
    wrapped: Select,
    outer: Expr,
    inner: Expr,
    quote_style: Option<char>,
)
    requires
        parens_around(outer, inner),
        plain.from == wrapped.from,
        plain.selection == wrapped.selection,
        plain.projection@ == seq![SelectItem::UnnamedExpr(inner)],
        wrapped.projection@ == seq![SelectItem::UnnamedExpr(outer)],
    ensures
        metadata_of_select(plain, quote_style) is Ok <==> metadata_of_select(wrapped, quote_style) is Ok,
        metadata_of_select(plain, quote_style) is Err ==> metadata_of_select(plain, quote_style)
            == metadata_of_select(wrapped, quote_style),
        metadata_of_select(plain, quote_style) is Ok ==> {
            let a = metadata_of_select(plain, quote_style)->Ok_0;
            let b = metadata_of_select(wrapped, quote_style)->Ok_0;
            &&& a.aggregation == b.aggregation
            &&& a.table == b.table
            &&& a.filter == b.filter
            &&& a.data_extraction_query == b.data_extraction_query
            &&& (a.data_aggregation_query is Some <==> b.data_aggregation_query is Some)
        },
{
    if let Ok((table, alias)) = table_of_from(plain.from@) {
        let from = match alias {
            Some(a) => FromRef::Alias(a),
            None => FromRef::Base(table),
        };
        lemma_parenthesized_call(from, outer, inner, None);
    }
}

} // verus!
