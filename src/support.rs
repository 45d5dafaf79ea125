//! Identifier folding, parenthesis stripping and the text helpers shared by the
//! analysis.
use vstd::prelude::*;
use crate::error::{result_view, Failure, ParseError};
use crate::query_metadata::{FromClauseIdentifier, FromRef};
use crate::syntax::{Expr, ExprKind, Ident, QuoteStyle};
use crate::table::{name_parts, TableView};

verus! {

/// `c` with an ASCII upper-case letter mapped to its lower-case form.
pub open spec fn lower_char(c: char) -> char {
    if 'A' <= c && c <= 'Z' {
        ((c as u32) + 32) as char
    } else {
        c
    }
}

/// `s` with every ASCII upper-case letter mapped to lower case.
pub open spec fn ascii_lower(s: Seq<char>) -> Seq<char> {
    s.map_values(|c: char| lower_char(c))
}

/// Relies on `str::to_ascii_lowercase`: ASCII letters `A` to `Z` become `a` to
/// `z`, every other character is kept.
#[verifier::external_body]
fn ascii_lowercase(s: &str) -> (r: String)
    ensures
        r@ == ascii_lower(s@),
{
    s.to_ascii_lowercase()
}

/// An identifier as the analysis compares and stores it: lower-cased when it
/// was written unquoted, kept as written when it was quoted.
pub open spec fn folded(id: Ident) -> Seq<char> {
    if id.quote_style is None {
        ascii_lower(id.value@)
    } else {
        id.value@
    }
}

/// Folds an identifier's case, as PostgreSQL does.
pub fn case_fold_identifier(ident: &Ident) -> (r: String)
    ensures
        r@ == folded(*ident),
{
    if ident.quote_style.is_none() {
        ascii_lowercase(ident.value.as_str())
    } else {
        ident.value.clone()
    }
}

/// The expression inside any number of enclosing parentheses.
pub open spec fn stripped(e: Expr) -> Expr
    decreases e,
{
    match e.kind {
        ExprKind::Nested(inner) => stripped(*inner),
        _ => e,
    }
}

/// Removes the parentheses around an expression, however deeply nested.
pub fn remove_outer_parens(expr: &Expr) -> (r: &Expr)
    ensures
        *r == stripped(*expr),
        !(r.kind is Nested),
    decreases expr,
{
    match &expr.kind {
        ExprKind::Nested(inner) => remove_outer_parens(inner),
        _ => expr,
    }
}

/// The part of a qualified reference at `k` places from its end, if present.
pub open spec fn part_from_end<'a>(parts: &'a Seq<Ident>, k: int) -> Option<&'a Ident> {
    if parts.len() >= k {
        Some(&parts[parts.len() - k])
    } else {
        None
    }
}

/// The failure for a qualified column that the `FROM` clause does not name.
pub open spec fn unknown_column(text: Seq<char>, from: FromRef) -> Failure {
    Failure::MalformedQuery(
        "the "@ + text + " column is not part of the table that's listed in the FROM clause ("@
            + from.text() + ")."@,
    )
}

/// The column that a reference `[[[db.]schema.]table.]column` names: its last
/// part, folded. A qualifier must match the `FROM` clause, and at most four
/// parts are possible.
pub open spec fn qualified_column(from: FromRef, text: Seq<char>, parts: Seq<Ident>) -> Result<Seq<char>, Failure> {
    if parts.len() == 0 {
        Err(Failure::Internal("found empty column name (CompoundIdentifier) in query AST."@))
    } else if parts.len() >= 2 && !from.matches_parts(
        part_from_end(&parts, 4),
        part_from_end(&parts, 3),
        &parts[parts.len() - 2],
    ) {
        Err(unknown_column(text, from))
    } else if parts.len() > 4 {
        Err(Failure::Internal("found too many ident in column name (i.e., "@ + text + ")."@))
    } else {
        Ok(folded(parts.last()))
    }
}

/// Resolves a possibly qualified column reference against the `FROM` clause.
pub fn extract_qualified_column(
    from_clause_identifier: FromClauseIdentifier,
    compound_identifier: &Expr,
    name_parts: &Vec<Ident>,
) -> (r: Result<String, ParseError>)
    ensures
        result_view(r) == qualified_column(from_clause_identifier@, compound_identifier.text@, name_parts@),
{
    let n = name_parts.len();
    if n == 0 {
        return Err(ParseError::Internal {
            message: String::from_str("found empty column name (CompoundIdentifier) in query AST."),
        });
    }
    let column = case_fold_identifier(&name_parts[n - 1]);
    if n >= 2 {
        let table = &name_parts[n - 2];
        let schema = if n >= 3 { Some(&name_parts[n - 3]) } else { None };
        let db = if n >= 4 { Some(&name_parts[n - 4]) } else { None };
        if !from_clause_identifier.matches(db, schema, table) {
            let from_text = from_clause_identifier.text();
            return Err(ParseError::MalformedQuery {
                message: String::from_str("the ").concat(compound_identifier.text.as_str()).concat(
                    " column is not part of the table that's listed in the FROM clause (",
                ).concat(from_text.as_str()).concat(")."),
            });
        }
    }
    if n > 4 {
        return Err(ParseError::Internal {
            message: String::from_str("found too many ident in column name (i.e., ").concat(
                compound_identifier.text.as_str(),
            ).concat(")."),
        });
    }
    Ok(column)
}

/// The quote characters that an identifier may be rendered with.
pub open spec fn valid_quote(q: Option<char>) -> bool {
    match q {
        None => true,
        Some(c) => c == '"' || c == '\'' || c == '`' || c == '[',
    }
}

/// An identifier as sqlparser renders it with the given quote character.
pub uninterp spec fn rendered_ident(value: Seq<char>, quote_style: Option<char>) -> Seq<char>;

/// Relies on the `Display` impl of sqlparser's `ast::Ident`: renders a value
/// with the given quote, escaping the quote inside it; unquoted it is the value
/// itself, and with `[` it is enclosed in brackets. Any other quote panics.
#[verifier::external_body]
fn ident_text(value: &str, quote_style: Option<char>) -> (r: String)
    requires
        valid_quote(quote_style),
    ensures
        r@ == rendered_ident(value@, quote_style),
        quote_style is None ==> r@ == value@,
        quote_style == Some('[') ==> r@ == seq!['['] + value@ + seq![']'],
{
    sqlparser::ast::Ident { value: value.to_string(), quote_style }.to_string()
}

impl QuoteStyle {
    pub open spec fn spec_char(self) -> char {
        match self {
            QuoteStyle::Double => '"',
            QuoteStyle::Single => '\'',
            QuoteStyle::Backtick => '`',
            QuoteStyle::Bracket => '[',
        }
    }

    /// The character that opens the quote.
    pub fn as_char(&self) -> (r: char)
        ensures
            r == self.spec_char(),
    {
        match self {
            QuoteStyle::Double => '"',
            QuoteStyle::Single => '\'',
            QuoteStyle::Backtick => '`',
            QuoteStyle::Bracket => '[',
        }
    }
}

/// The quote character of an identifier.
pub open spec fn quote_char(id: Ident) -> Option<char> {
    match id.quote_style {
        Some(q) => Some(q.spec_char()),
        None => None,
    }
}

/// An identifier as written in SQL.
pub open spec fn ident_sql(id: Ident) -> Seq<char> {
    rendered_ident(id.value@, quote_char(id))
}

/// Renders an identifier with its own quoting.
pub fn render_ident(id: &Ident) -> (r: String)
    ensures
        r@ == ident_sql(*id),
{
    let q = match &id.quote_style {
        Some(style) => Some(style.as_char()),
        None => None,
    };
    ident_text(id.value.as_str(), q)
}

/// Renders a value as an identifier with the caller's quote character.
pub fn render_value_as_ident(value: &String, quote_style: Option<char>) -> (r: String)
    requires
        valid_quote(quote_style),
    ensures
        r@ == rendered_ident(value@, quote_style),
        quote_style is None ==> r@ == value@,
{
    ident_text(value.as_str(), quote_style)
}

/// `parts` joined by `sep`.
pub open spec fn joined(parts: Seq<Seq<char>>, sep: Seq<char>) -> Seq<char>
    decreases parts.len(),
{
    if parts.len() == 0 {
        Seq::empty()
    } else if parts.len() == 1 {
        parts[0]
    } else {
        joined(parts.drop_last(), sep) + sep + parts.last()
    }
}

/// The texts of a list of strings.
pub open spec fn texts(v: Seq<String>) -> Seq<Seq<char>> {
    v.map_values(|s: String| s@)
}

/// Joins strings with a separator.
pub fn join(parts: &Vec<String>, sep: &str) -> (r: String)
    ensures
        r@ == joined(texts(parts@), sep@),
{
    let mut r = String::new();
    let mut i: usize = 0;
    while i < parts.len()
        invariant
            i <= parts@.len(),
            r@ == joined(texts(parts@.subrange(0, i as int)), sep@),
        decreases parts@.len() - i,
    {
        assert(texts(parts@.subrange(0, i as int + 1)).drop_last() =~= texts(parts@.subrange(0, i as int)));
        if i > 0 {
            r.append(sep);
        }
        r.append(parts[i].as_str());
        i = i + 1;
    }
    assert(parts@.subrange(0, i as int) =~= parts@);
    r
}

/// An identifier path such as `db.schema.table`, as written in SQL.
pub open spec fn name_sql(name: Seq<Ident>) -> Seq<char> {
    joined(name.map_values(|id: Ident| ident_sql(id)), "."@)
}

/// Renders an identifier path with the identifiers' own quoting.
pub fn render_name(name: &Vec<Ident>) -> (r: String)
    ensures
        r@ == name_sql(name@),
{
    let mut parts: Vec<String> = Vec::new();
    let mut i: usize = 0;
    while i < name.len()
        invariant
            i <= name@.len(),
            parts@.len() == i,
            forall|j: int| 0 <= j < i ==> #[trigger] parts@[j]@ == ident_sql(name@[j]),
        decreases name@.len() - i,
    {
        let t = render_ident(&name[i]);
        parts.push(t);
        i = i + 1;
    }
    assert(texts(parts@) =~= name@.map_values(|id: Ident| ident_sql(id)));
    join(&parts, ".")
}

/// The decimal digits of `n`.
pub open spec fn decimal(n: nat) -> Seq<char>
    decreases n,
{
    if n < 10 {
        seq![seq!['0', '1', '2', '3', '4', '5', '6', '7', '8', '9'][n as int]]
    } else {
        decimal(n / 10) + decimal(n % 10)
    }
}

/// Relies on the `Display` impl of `usize`: the number in decimal digits.
#[verifier::external_body]
pub(crate) fn usize_text(n: usize) -> (r: String)
    ensures
        r@ == decimal(n as nat),
{
    n.to_string()
}

} // verus!

verus! {

/// Removing parentheses twice removes no more than removing them once.
pub proof fn lemma_stripped_idempotent(e: Expr)
    ensures
        stripped(stripped(e)) == stripped(e),
    decreases e,
{
    if let ExprKind::Nested(inner) = e.kind {
        lemma_stripped_idempotent(*inner);
    }
}

/// Whether `outer` is `inner` enclosed in zero or more pairs of parentheses.
pub open spec fn parens_around(outer: Expr, inner: Expr) -> bool
    decreases outer,
{
    outer == inner || match outer.kind {
        ExprKind::Nested(e) => parens_around(*e, inner),
        _ => false,
    }
}

/// Extra parentheses around an expression do not change what it strips to.
pub proof fn lemma_parens_around_strip(outer: Expr, inner: Expr)
    requires
        parens_around(outer, inner),
    ensures
        stripped(outer) == stripped(inner),
    decreases outer,
{
    if outer != inner {
        if let ExprKind::Nested(e) = outer.kind {
            lemma_parens_around_strip(*e, inner);
        }
    }
}

/// A column reference qualified with exactly the parts of the table's name
/// resolves to its column.
pub proof fn lemma_exact_qualifier_resolves(t: TableView, text: Seq<char>, parts: Seq<Ident>)
    requires
        parts.len() == name_parts(t).len() + 1,
        forall|i: int| 0 <= i < name_parts(t).len() ==> folded(#[trigger] parts[i]) == name_parts(t)[i],
    ensures
        qualified_column(FromRef::Base(t), text, parts) == Ok::<_, Failure>(folded(parts.last())),
{
    let n = name_parts(t);
    assert(folded(parts[n.len() - 1]) == n[n.len() - 1]);
    if n.len() >= 2 {
        assert(folded(parts[n.len() - 2]) == n[n.len() - 2]);
    }
    if n.len() >= 3 {
        assert(folded(parts[0]) == n[0]);
    }
}

/// A qualifier part that is present in both the reference and the table's name
/// and differs from it.
pub open spec fn conflicting_qualifier(t: TableView, parts: Seq<Ident>) -> bool {
    let n = parts.len();
    ||| folded(parts[n - 2]) != t.table
    ||| (n >= 3 && t.schema is Some && folded(parts[n - 3]) != t.schema->Some_0)
    ||| (n >= 4 && t.db is Some && folded(parts[n - 4]) != t.db->Some_0)
}

/// A column reference whose qualifier conflicts with the table's name is
/// rejected as malformed.
pub proof fn lemma_conflicting_qualifier_fails(t: TableView, text: Seq<char>, parts: Seq<Ident>)
    requires
        2 <= parts.len() <= 4,
        conflicting_qualifier(t, parts),
    ensures
        qualified_column(FromRef::Base(t), text, parts) == Err::<Seq<char>, _>(unknown_column(text, FromRef::Base(t))),
        unknown_column(text, FromRef::Base(t)) is MalformedQuery,
{
}

/// Against an alias, a column reference resolves exactly when it is bare or
/// qualified by the alias alone; otherwise it is rejected as malformed.
pub proof fn lemma_alias_qualifier(alias: Seq<char>, text: Seq<char>, parts: Seq<Ident>)
    requires
        1 <= parts.len() <= 4,
    ensures
        qualified_column(FromRef::Alias(alias), text, parts) is Ok <==> (parts.len() == 1 || (parts.len() == 2
            && folded(parts[0]) == alias)),
        qualified_column(FromRef::Alias(alias), text, parts) is Ok ==> qualified_column(
            FromRef::Alias(alias),
            text,
            parts,
        ) == Ok::<_, Failure>(folded(parts.last())),
        !(qualified_column(FromRef::Alias(alias), text, parts) is Ok) ==> qualified_column(
            FromRef::Alias(alias),
            text,
            parts,
        ) == Err::<Seq<char>, _>(unknown_column(text, FromRef::Alias(alias))),
{
}

} // verus!
