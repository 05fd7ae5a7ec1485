//! Statements: the text that the SQL builder writes for a table, its columns
//! and its filters, with the values to bind.

use sqlb::SqlBuilder;
use vstd::prelude::*;

use crate::row::{fields_view, names_of, values_of, Field, Value, ValueView};

verus! {

/// How the statement is to be run, and so what the reply holds.
#[derive(Clone, Copy, Debug, PartialEq, Eq, Structural)]
pub enum Fetch {
    /// Exactly one row; none is the driver's "row not found" failure.
    One,
    /// The first row, if there is one.
    Optional,
    /// Every row.
    All,
    /// No rows, but the number of rows that the statement touched.
    Affected,
}

/// What is sent to the store.
#[derive(Clone, Debug, PartialEq)]
pub struct Statement {
    /// The text, with `$1`, `$2`, ... where the values go.
    pub sql: String,
    /// The values, in the order of their placeholders.
    pub binds: Vec<Value>,
    pub fetch: Fetch,
}

pub struct StatementView {
    pub sql: Seq<char>,
    pub binds: Seq<ValueView>,
    pub fetch: Fetch,
}

impl View for Statement {
    type V = StatementView;

    open spec fn view(&self) -> StatementView {
        StatementView {
            sql: self.sql@,
            binds: self.binds@.map_values(|v: Value| v@),
            fetch: self.fetch,
        }
    }
}

/// The texts of a run of names, in their order.
pub open spec fn texts_of(names: Seq<&'static str>) -> Seq<Seq<char>> {
    names.map_values(|n: &'static str| n@)
}

/// The text of `sqlb`'s select builder for a table, the columns to read and
/// the columns that an equality filter is put on, in their order.
pub uninterp spec fn select_text(
    table: Seq<char>,
    columns: Seq<Seq<char>>,
    filters: Seq<Seq<char>>,
) -> Seq<char>;

/// The text of `sqlb`'s insert builder for a table, the columns to write and
/// the columns to hand back, in their order.
pub uninterp spec fn insert_text(
    table: Seq<char>,
    columns: Seq<Seq<char>>,
    returning: Seq<Seq<char>>,
) -> Seq<char>;

/// The text of `sqlb`'s delete builder for a table and the columns that an
/// equality filter is put on, in their order.
pub uninterp spec fn delete_text(table: Seq<char>, filters: Seq<Seq<char>>) -> Seq<char>;

/// `sqlb::select()` with `table`, `columns` and one `and_where_eq` for each
/// filter, then `SqlBuilder::sql`. The builder writes the text from the names
/// alone: each value only takes the next placeholder.
#[verifier::external_body]
fn select_sql(table: &str, columns: &Vec<&'static str>, filters: &Vec<Field>) -> (sql: String)
    ensures
        sql@ == select_text(table@, texts_of(columns@), names_of(fields_view(filters@))),
{
    let mut sb = sqlb::select().table(table).columns(columns);
    for f in filters.iter() {
        sb = match &f.value {
            Value::Null => sb.and_where_eq(&f.name, None::<String>),
            Value::Int(v) => sb.and_where_eq(&f.name, *v),
            Value::Text(v) => sb.and_where_eq(&f.name, v.clone()),
            Value::Uuid(v) => sb.and_where_eq(&f.name, *v),
        };
    }
    sb.sql()
}

/// `sqlb::insert()` with `table`, the fields as `data` and `returning`, then
/// `SqlBuilder::sql`. The builder writes the text from the names alone: each
/// value only takes the next placeholder.
#[verifier::external_body]
fn insert_sql(table: &str, fields: &Vec<Field>, returning: &Vec<&'static str>) -> (sql: String)
    ensures
        sql@ == insert_text(table@, names_of(fields_view(fields@)), texts_of(returning@)),
{
    let data = fields.iter().map(|f| match &f.value {
        Value::Null => sqlb::Field::from((f.name.as_str(), None::<String>)),
        Value::Int(v) => sqlb::Field::from((f.name.as_str(), *v)),
        Value::Text(v) => sqlb::Field::from((f.name.as_str(), v.clone())),
        Value::Uuid(v) => sqlb::Field::from((f.name.as_str(), *v)),
    }).collect();
    sqlb::insert().table(table).data(data).returning(returning).sql()
}

/// `sqlb::delete()` with `table` and one `and_where_eq` for each filter, then
/// `SqlBuilder::sql`, which panics where there is no filter. The builder
/// writes the text from the names alone.
#[verifier::external_body]
fn delete_sql(table: &str, filters: &Vec<Field>) -> (sql: String)
    requires
        filters.len() > 0,
    ensures
        sql@ == delete_text(table@, names_of(fields_view(filters@))),
{
    let mut sb = sqlb::delete().table(table);
    for f in filters.iter() {
        sb = match &f.value {
            Value::Null => sb.and_where_eq(&f.name, None::<String>),
            Value::Int(v) => sb.and_where_eq(&f.name, *v),
            Value::Text(v) => sb.and_where_eq(&f.name, v.clone()),
            Value::Uuid(v) => sb.and_where_eq(&f.name, *v),
        };
    }
    sb.sql()
}

/// The values of the fields, in their order.
fn values(fields: &Vec<Field>) -> (out: Vec<Value>)
    ensures
        out@.map_values(|v: Value| v@) == values_of(fields_view(fields@)),
{
    let mut out: Vec<Value> = Vec::new();
    let mut i: usize = 0;
    while i < fields.len()
        invariant
            i <= fields.len(),
            out.len() == i,
            forall|k: int| 0 <= k < i ==> out@[k]@ == fields@[k].value@,
        decreases fields.len() - i,
    {
        out.push(fields[i].value.duplicate());
        i = i + 1;
    }
    assert(out@.map_values(|v: Value| v@) =~= values_of(fields_view(fields@)));
    out
}

/// What a select of `columns` from `table` is, with an equality filter for
/// each of `filters`.
pub open spec fn select_statement(
    table: Seq<char>,
    columns: Seq<Seq<char>>,
    filters: Seq<crate::row::FieldView>,
    fetch: Fetch,
) -> StatementView {
    StatementView {
        sql: select_text(table, columns, names_of(filters)),
        binds: values_of(filters),
        fetch,
    }
}

/// What an insert of `fields` into `table` is, which hands back the columns
/// `returning` of the new row.
pub open spec fn insert_statement(
    table: Seq<char>,
    fields: Seq<crate::row::FieldView>,
    returning: Seq<Seq<char>>,
) -> StatementView {
    StatementView {
        sql: insert_text(table, names_of(fields), returning),
        binds: values_of(fields),
        fetch: Fetch::One,
    }
}

/// What a delete from `table` is, with an equality filter for each of
/// `filters`.
pub open spec fn delete_statement(
    table: Seq<char>,
    filters: Seq<crate::row::FieldView>,
) -> StatementView {
    StatementView {
        sql: delete_text(table, names_of(filters)),
        binds: values_of(filters),
        fetch: Fetch::Affected,
    }
}

/// The select of `columns` from `table` where each of `filters` holds.
pub fn select(table: &str, columns: &Vec<&'static str>, filters: &Vec<Field>, fetch: Fetch) -> (st:
    Statement)
    ensures
        st@ == select_statement(table@, texts_of(columns@), fields_view(filters@), fetch),
{
    Statement { sql: select_sql(table, columns, filters), binds: values(filters), fetch }
}

/// The insert of `fields` into `table`, which hands back `returning`.
pub fn insert(table: &str, fields: &Vec<Field>, returning: &Vec<&'static str>) -> (st: Statement)
    ensures
        st@ == insert_statement(table@, fields_view(fields@), texts_of(returning@)),
{
    Statement {
        sql: insert_sql(table, fields, returning),
        binds: values(fields),
        fetch: Fetch::One,
    }
}

/// The delete from `table` where each of `filters` holds. Without a filter
/// there is no statement: nothing here deletes a whole table.
pub fn delete(table: &str, filters: &Vec<Field>) -> (st: Option<Statement>)
    ensures
        filters.len() == 0 ==> st is None,
        filters.len() > 0 ==> st is Some && st->Some_0@ == delete_statement(
            table@,
            fields_view(filters@),
        ),
{
    if filters.len() == 0 {
        None
    } else {
        Some(
            Statement {
                sql: delete_sql(table, filters),
                binds: values(filters),
                fetch: Fetch::Affected,
            },
        )
    }
}

} // verus!
