//! The table that a query reads, and its alias.
use vstd::prelude::*;
use crate::error::{Failure, ParseError};
use crate::support::{
    case_fold_identifier, folded, ident_sql, joined, render_ident, render_name, name_sql,
};
use crate::syntax::{Ident, TableAlias, TableFactor, TableWithJoins};

verus! {

/// A table's name, split into database, schema and table, each case-folded.
#[derive(Clone, Debug, PartialEq, Eq, Default)]
pub struct TabIdent {
    pub db: Option<String>,
    pub schema: Option<String>,
    pub table: String,
}

/// The mathematical value of a `TabIdent`.
pub struct TableView {
    pub db: Option<Seq<char>>,
    pub schema: Option<Seq<char>>,
    pub table: Seq<char>,
}

/// The text of an optional string.
pub open spec fn opt_text(o: Option<String>) -> Option<Seq<char>> {
    match o {
        Some(s) => Some(s@),
        None => None,
    }
}

impl View for TabIdent {
    type V = TableView;

    open spec fn view(&self) -> TableView {
        TableView { db: opt_text(self.db), schema: opt_text(self.schema), table: self.table@ }
    }
}

/// The parts of a table's name that are present, outermost first.
pub open spec fn name_parts(t: TableView) -> Seq<Seq<char>> {
    let db = match t.db {
        Some(d) => seq![d],
        None => Seq::empty(),
    };
    let schema = match t.schema {
        Some(s) => seq![s],
        None => Seq::empty(),
    };
    db + schema + seq![t.table]
}

/// A table's name as it appears in diagnostics: its parts joined by dots.
pub open spec fn table_text(t: TableView) -> Seq<char> {
    joined(name_parts(t), "."@)
}

/// Splits a table's dotted name into its parts.
pub open spec fn table_of_name(name: Seq<Ident>) -> Result<TableView, Failure> {
    if name.len() == 0 {
        Err(Failure::Internal("found empty table name (ObjectName) in query AST."@))
    } else if name.len() == 1 {
        Ok(TableView { db: None, schema: None, table: folded(name[0]) })
    } else if name.len() == 2 {
        Ok(TableView { db: None, schema: Some(folded(name[0])), table: folded(name[1]) })
    } else if name.len() == 3 {
        Ok(TableView { db: Some(folded(name[0])), schema: Some(folded(name[1])), table: folded(name[2]) })
    } else {
        Err(Failure::Internal(
            "found too many ident in table name (i.e., "@ + name_sql(name) + ") in query AST."@,
        ))
    }
}

/// The text of a table alias: its name, then its column list if it has one.
pub open spec fn alias_sql(alias: TableAlias) -> Seq<char> {
    if alias.columns@.len() == 0 {
        ident_sql(alias.name)
    } else {
        ident_sql(alias.name) + " ("@ + joined(alias.columns@.map_values(|id: Ident| ident_sql(id)), ", "@) + ")"@
    }
}

pub open spec fn multiple_tables() -> Failure {
    Failure::Unsupported(
        "the FROM clause has multiple tables (no JOINs, subqueries or functions allowed)."@,
    )
}

/// The table and the folded alias that a `FROM` clause names, or why it is not a
/// single plain table.
pub open spec fn table_of_from(from: Seq<TableWithJoins>) -> Result<(TableView, Option<Seq<char>>), Failure> {
    if from.len() != 1 || from[0].joins@.len() != 0 {
        Err(multiple_tables())
    } else {
        match from[0].relation {
            TableFactor::Table { name, alias, args, with_hints, version, partitions } => {
                if args is Some {
                    Err(multiple_tables())
                } else if with_hints@.len() != 0 {
                    Err(Failure::Unsupported("table hints (WITH in FROM clauses)."@))
                } else if version is Some {
                    Err(Failure::Unsupported("version qualifier."@))
                } else if partitions@.len() != 0 {
                    Err(Failure::Unsupported("table partitions."@))
                } else {
                    match table_of_name(name@) {
                        Err(e) => Err(e),
                        Ok(t) => match alias {
                            None => Ok((t, None)),
                            Some(a) => if a.columns@.len() == 0 {
                                Ok((t, Some(folded(a.name))))
                            } else {
                                Err(Failure::Unsupported(
                                    "table aliases with columns (such as "@ + alias_sql(a) + ")."@,
                                ))
                            },
                        },
                    }
                }
            },
            TableFactor::Other => Err(multiple_tables()),
        }
    }
}

fn multiple_tables_error() -> (r: ParseError)
    ensures
        r@ == multiple_tables(),
{
    ParseError::Unsupported {
        message: String::from_str(
            "the FROM clause has multiple tables (no JOINs, subqueries or functions allowed).",
        ),
    }
}

/// Renders a table alias with its column list.
fn render_alias(alias: &TableAlias) -> (r: String)
    ensures
        r@ == alias_sql(*alias),
{
    let name = render_ident(&alias.name);
    if alias.columns.len() == 0 {
        return name;
    }
    let mut columns: Vec<String> = Vec::new();
    let mut i: usize = 0;
    while i < alias.columns.len()
        invariant
            i <= alias.columns@.len(),
            columns@.len() == i,
            forall|j: int| 0 <= j < i ==> #[trigger] columns@[j]@ == ident_sql(alias.columns@[j]),
        decreases alias.columns@.len() - i,
    {
        columns.push(render_ident(&alias.columns[i]));
        i = i + 1;
    }
    assert(crate::support::texts(columns@) =~= alias.columns@.map_values(|id: Ident| ident_sql(id)));
    let listed = crate::support::join(&columns, ", ");
    name.concat(" (").concat(listed.as_str()).concat(")")
}

/// The table of a `FROM` clause, with the alias given to it, if any.
pub struct TableIdentWithAlias(pub TabIdent, pub Option<String>);

impl TableIdentWithAlias {
    /// Accepts a `FROM` clause that names exactly one plain table.
    pub fn extract(from: &Vec<TableWithJoins>) -> (r: Result<Self, ParseError>)
        ensures
            match r {
                Ok(t) => table_of_from(from@) == Ok::<_, Failure>((t.0@, opt_text(t.1))),
                Err(e) => table_of_from(from@) == Err::<(TableView, Option<Seq<char>>), _>(e@),
            },
    {
        if from.len() != 1 || from[0].joins.len() != 0 {
            return Err(multiple_tables_error());
        }
        match &from[0].relation {
            TableFactor::Table { name, alias, args, with_hints, version, partitions } => {
                if args.is_some() {
                    return Err(multiple_tables_error());
                }
                if with_hints.len() != 0 {
                    return Err(ParseError::Unsupported {
                        message: String::from_str("table hints (WITH in FROM clauses)."),
                    });
                }
                if version.is_some() {
                    return Err(ParseError::Unsupported { message: String::from_str("version qualifier.") });
                }
                if partitions.len() != 0 {
                    return Err(ParseError::Unsupported { message: String::from_str("table partitions.") });
                }
                let table = TabIdent::from_object_name(name)?;
                match alias {
                    None => Ok(TableIdentWithAlias(table, None)),
                    Some(a) => {
                        if a.columns.len() == 0 {
                            Ok(TableIdentWithAlias(table, Some(case_fold_identifier(&a.name))))
                        } else {
                            let text = render_alias(a);
                            Err(ParseError::Unsupported {
                                message: String::from_str("table aliases with columns (such as ")
                                    .concat(text.as_str()).concat(")."),
                            })
                        }
                    },
                }
            },
            TableFactor::Other => Err(multiple_tables_error()),
        }
    }
}

impl TabIdent {
    /// Splits a dotted table name into database, schema and table.
    pub fn from_object_name(name: &Vec<Ident>) -> (r: Result<Self, ParseError>)
        ensures
            match r {
                Ok(t) => table_of_name(name@) == Ok::<_, Failure>(t@),
                Err(e) => table_of_name(name@) == Err::<TableView, _>(e@),
            },
    {
        if name.len() == 0 {
            Err(ParseError::Internal {
                message: String::from_str("found empty table name (ObjectName) in query AST."),
            })
        } else if name.len() == 1 {
            Ok(TabIdent { db: None, schema: None, table: case_fold_identifier(&name[0]) })
        } else if name.len() == 2 {
            Ok(TabIdent {
                db: None,
                schema: Some(case_fold_identifier(&name[0])),
                table: case_fold_identifier(&name[1]),
            })
        } else if name.len() == 3 {
            Ok(TabIdent {
                db: Some(case_fold_identifier(&name[0])),
                schema: Some(case_fold_identifier(&name[1])),
                table: case_fold_identifier(&name[2]),
            })
        } else {
            let text = render_name(name);
            Err(ParseError::Internal {
                message: String::from_str("found too many ident in table name (i.e., ")
                    .concat(text.as_str()).concat(") in query AST."),
            })
        }
    }

    /// The parts of the name that are present, outermost first.
    pub fn name_parts(&self) -> (r: Vec<String>)
        ensures
            crate::support::texts(r@) == name_parts(self@),
    {
        let mut r: Vec<String> = Vec::new();
        if let Some(db) = &self.db {
            r.push(db.clone());
        }
        if let Some(schema) = &self.schema {
            r.push(schema.clone());
        }
        r.push(self.table.clone());
        assert(crate::support::texts(r@) =~= name_parts(self@));
        r
    }

    /// The name with its parts joined by dots, as shown in diagnostics.
    pub fn to_string(&self) -> (r: String)
        ensures
            r@ == table_text(self@),
    {
        let parts = self.name_parts();
        crate::support::join(&parts, ".")
    }
}

} // verus!
