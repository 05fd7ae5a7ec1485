//! The table controller: create, get, list, delete and find, for any table
//! and any projection of its rows.

use sqlx::Error as DriverError;
use vstd::prelude::*;

use crate::ctx::Ctx;
use crate::error::{shows, store_failure, Error, ErrorView};
use crate::manager::ModelManager;
use crate::row::{fields_view, lookup, read_int, Field, FieldView, Row, Value, ValueView};
use crate::sql::{
    delete_statement, insert_statement, select_statement, texts_of, Fetch, Statement,
};

verus! {

/// Binds a controller to its table.
pub trait DbBmc {
    spec fn table_name() -> Seq<char>;

    /// The table's name, which is also the entity's name in an error.
    fn table() -> (t: &'static str)
        ensures
            t@ == Self::table_name(),
    ;
}

/// A shape that rows of a table are read into. It declares the columns that
/// it reads, and a decoded value holds what the row held under each of them.
pub trait Projection: View + Sized {
    /// The declared columns, in the order in which a select names them.
    spec fn columns() -> Seq<Seq<char>>;

    /// The value for a row, or the `Store` error for a malformed one.
    spec fn decoded(row: Seq<FieldView>) -> Result<Self::V, ErrorView>;

    /// What a value holds for one of the declared columns.
    spec fn field(v: Self::V, column: Seq<char>) -> ValueView;

    fn field_names() -> (names: Vec<&'static str>)
        ensures
            texts_of(names@) == Self::columns(),
    ;

    fn from_row(row: &Row) -> (out: Result<Self, Error>)
        ensures
            shows(out, Self::decoded(row@)),
    ;

    /// A decoded value holds, for each declared column, what the row holds
    /// under it.
    proof fn lemma_reads_columns(row: Seq<FieldView>, column: Seq<char>)
        requires
            Self::decoded(row) is Ok,
            Self::columns().contains(column),
        ensures
            lookup(row, column) == Some(Self::field(Self::decoded(row)->Ok_0, column)),
    ;

    /// Nothing but the declared columns is read: rows that agree on them
    /// decode alike.
    proof fn lemma_reads_nothing_else(a: Seq<FieldView>, b: Seq<FieldView>)
        requires
            forall|column: Seq<char>| #[trigger]
                Self::columns().contains(column) ==> lookup(a, column) == lookup(b, column),
        ensures
            Self::decoded(a) == Self::decoded(b),
    ;
}

/// A shape whose fields are written into a new row.
pub trait Insertable {
    /// The fields that an insert writes, in their order.
    spec fn inserted(&self) -> Seq<FieldView>;

    fn fields(&self) -> (fields: Vec<Field>)
        ensures
            fields_view(fields@) == self.inserted(),
    ;

    /// The key is the store's to give: no payload writes the key column.
    proof fn lemma_writes_no_key(&self)
        ensures
            lookup(self.inserted(), key_column()) is None,
    ;
}

/// One half of an exchange with the store: who acts, on which handle, and
/// what is to be run there.
pub struct Request<'a, D> {
    pub ctx: Ctx,
    pub db: &'a D,
    pub statement: Statement,
}

/// The name of the key column of every table.
pub open spec fn key_column() -> Seq<char> {
    "id"@
}

/// The filter of a lookup by key.
pub open spec fn key_filter(id: i64) -> Seq<FieldView> {
    seq![FieldView { name: key_column(), value: ValueView::Int(id) }]
}

fn by_key(id: i64) -> (filters: Vec<Field>)
    ensures
        fields_view(filters@) == key_filter(id),
{
    let filters = vec![Field::new("id", Value::Int(id))];
    assert(fields_view(filters@) =~= key_filter(id));
    filters
}

fn key_names() -> (names: Vec<&'static str>)
    ensures
        texts_of(names@) == seq![key_column()],
{
    let names = vec!["id"];
    assert(texts_of(names@) =~= seq![key_column()]);
    names
}

/// Inserts a row with exactly the fields of `data` and asks for the key that
/// the store assigned.
pub fn create<'a, MC: DbBmc, I: Insertable, D>(ctx: &Ctx, mm: &'a ModelManager<D>, data: &I) -> (req:
    Request<'a, D>)
    ensures
        req.ctx == *ctx,
        *req.db == mm.handle(),
        req.statement@ == insert_statement(MC::table_name(), data.inserted(), seq![key_column()]),
{
    let fields = data.fields();
    let statement = crate::sql::insert(MC::table(), &fields, &key_names());
    Request { ctx: *ctx, db: mm.db(), statement }
}

/// The key in the row that an insert handed back.
pub open spec fn created(row: Seq<FieldView>) -> Result<i64, ErrorView> {
    read_int(row, key_column())
}

/// The reply to [`create`]: the new row's key. Any failure of the store, a
/// rejected insert among them, is a `Store` error.
pub fn create_result(reply: Result<Row, DriverError>) -> (out: Result<i64, Error>)
    ensures
        match reply {
            Ok(row) => shows(out, created(row@)),
            Err(e) => store_failure(out, e),
        },
{
    match reply {
        Ok(row) => row.get_int("id"),
        Err(e) => Err(Error::from_driver(&e)),
    }
}

/// Selects the columns of the projection `E` from the row with key `id`.
pub fn get<'a, MC: DbBmc, E: Projection, D>(ctx: &Ctx, mm: &'a ModelManager<D>, id: i64) -> (req:
    Request<'a, D>)
    ensures
        req.ctx == *ctx,
        *req.db == mm.handle(),
        req.statement@ == select_statement(
            MC::table_name(),
            E::columns(),
            key_filter(id),
            Fetch::Optional,
        ),
{
    let statement = crate::sql::select(
        MC::table(),
        &E::field_names(),
        &by_key(id),
        Fetch::Optional,
    );
    Request { ctx: *ctx, db: mm.db(), statement }
}

/// What a lookup by key gives for the row that the store found, or for none.
pub open spec fn found<MC: DbBmc, E: Projection>(id: i64, row: Option<Seq<FieldView>>) -> Result<
    E::V,
    ErrorView,
> {
    match row {
        Some(r) => E::decoded(r),
        None => Err(ErrorView::EntityNotFound { entity: MC::table_name(), id }),
    }
}

/// The view of a row that may be missing.
pub open spec fn row_view(row: Option<Row>) -> Option<Seq<FieldView>> {
    match row {
        Some(r) => Some(r@),
        None => None,
    }
}

/// The reply to [`get`]: the row as an `E`, or `EntityNotFound` where the
/// store found no row. A failure of the store is a `Store` error.
pub fn get_result<MC: DbBmc, E: Projection>(id: i64, reply: Result<Option<Row>, DriverError>) -> (out:
    Result<E, Error>)
    ensures
        match reply {
            Ok(row) => shows(out, found::<MC, E>(id, row_view(row))),
            Err(e) => store_failure(out, e),
        },
{
    match reply {
        Ok(Some(row)) => E::from_row(&row),
        Ok(None) => Err(Error::EntityNotFound { entity: MC::table(), id }),
        Err(e) => Err(Error::from_driver(&e)),
    }
}

/// The views of a run of rows, in their order.
pub open spec fn rows_view(rows: Seq<Row>) -> Seq<Seq<FieldView>> {
    rows.map_values(|r: Row| r@)
}

/// The views of a run of values, in their order.
pub open spec fn views_of<E: View>(values: Seq<E>) -> Seq<E::V> {
    values.map_values(|e: E| e@)
}

/// Selects the columns of the projection `E` from every row of the table, in
/// the store's own order.
pub fn list<'a, MC: DbBmc, E: Projection, D>(ctx: &Ctx, mm: &'a ModelManager<D>) -> (req: Request<
    'a,
    D,
>)
    ensures
        req.ctx == *ctx,
        *req.db == mm.handle(),
        req.statement@ == select_statement(
            MC::table_name(),
            E::columns(),
            Seq::empty(),
            Fetch::All,
        ),
{
    let filters: Vec<Field> = Vec::new();
    assert(fields_view(filters@) =~= Seq::empty());
    let statement = crate::sql::select(MC::table(), &E::field_names(), &filters, Fetch::All);
    Request { ctx: *ctx, db: mm.db(), statement }
}

/// The rows as values of `E`, in their order, or the error of the first row
/// that is malformed.
pub open spec fn decoded_all<E: Projection>(rows: Seq<Seq<FieldView>>) -> Result<
    Seq<E::V>,
    ErrorView,
>
    decreases rows.len(),
{
    if rows.len() == 0 {
        Ok(Seq::empty())
    } else {
        match decoded_all::<E>(rows.drop_last()) {
            Err(e) => Err(e),
            Ok(values) => match E::decoded(rows.last()) {
                Err(e) => Err(e),
                Ok(v) => Ok(values.push(v)),
            },
        }
    }
}

/// Once a row is malformed, more rows after it change nothing.
proof fn lemma_decoded_all_fails<E: Projection>(rows: Seq<Seq<FieldView>>, n: int)
    requires
        0 <= n <= rows.len(),
        decoded_all::<E>(rows.take(n)) is Err,
    ensures
        decoded_all::<E>(rows) == decoded_all::<E>(rows.take(n)),
    decreases rows.len() - n,
{
    if n == rows.len() {
        assert(rows.take(n) == rows);
    } else {
        assert(rows.take(n + 1).drop_last() == rows.take(n));
        lemma_decoded_all_fails::<E>(rows, n + 1);
    }
}

/// The reply to [`list`]: every row as an `E`, in the order of the reply. One
/// malformed row fails the whole list.
pub fn list_result<E: Projection>(reply: Result<Vec<Row>, DriverError>) -> (out: Result<
    Vec<E>,
    Error,
>)
    ensures
        match reply {
            Ok(rows) => match decoded_all::<E>(rows_view(rows@)) {
                Ok(values) => out is Ok && views_of(out->Ok_0@) == values,
                Err(e) => out is Err && out->Err_0@ == e,
            },
            Err(e) => store_failure(out, e),
        },
{
    match reply {
        Ok(rows) => {
            let ghost all = rows_view(rows@);
            let mut values: Vec<E> = Vec::new();
            let mut i: usize = 0;
            assert(all.take(0) =~= Seq::empty());
            assert(views_of(values@) =~= Seq::empty());
            while i < rows.len()
                invariant
                    i <= rows.len(),
                    reply == Ok::<Vec<Row>, DriverError>(rows),
                    all == rows_view(rows@),
                    decoded_all::<E>(all.take(i as int)) == Ok::<Seq<E::V>, ErrorView>(
                        views_of(values@),
                    ),
                decreases rows.len() - i,
            {
                proof {
                    assert(all.take(i + 1).drop_last() == all.take(i as int));
                    assert(all.take(i + 1).last() == rows@[i as int]@);
                }
                match E::from_row(&rows[i]) {
                    Ok(value) => {
                        let ghost before = views_of(values@);
                        values.push(value);
                        assert(views_of(values@) =~= before.push(value@));
                    },
                    Err(e) => {
                        proof {
                            lemma_decoded_all_fails::<E>(all, i + 1);
                        }
                        return Err(e);
                    },
                }
                i = i + 1;
            }
            assert(all.take(i as int) == all);
            Ok(values)
        },
        Err(e) => Err(Error::from_driver(&e)),
    }
}

/// Deletes the row with key `id`.
pub fn delete<'a, MC: DbBmc, D>(ctx: &Ctx, mm: &'a ModelManager<D>, id: i64) -> (req: Request<'a, D>)
    ensures
        req.ctx == *ctx,
        *req.db == mm.handle(),
        req.statement@ == delete_statement(MC::table_name(), key_filter(id)),
{
    let filters = by_key(id);
    assert(filters@.len() == fields_view(filters@).len());
    let statement = crate::sql::delete(MC::table(), &filters).unwrap();
    Request { ctx: *ctx, db: mm.db(), statement }
}

/// What a delete by key gives for the number of rows that the store deleted.
pub open spec fn deleted<MC: DbBmc>(id: i64, count: u64) -> Result<(), ErrorView> {
    if count == 0 {
        Err(ErrorView::EntityNotFound { entity: MC::table_name(), id })
    } else {
        Ok(())
    }
}

/// The reply to [`delete`]: done where a row was deleted, `EntityNotFound`
/// where none was. A failure of the store is a `Store` error.
pub fn delete_result<MC: DbBmc>(id: i64, reply: Result<u64, DriverError>) -> (out: Result<(), Error>)
    ensures
        match reply {
            Ok(count) => match deleted::<MC>(id, count) {
                Ok(_) => out is Ok,
                Err(e) => out is Err && out->Err_0@ == e,
            },
            Err(e) => store_failure(out, e),
        },
{
    match reply {
        Ok(count) => {
            if count == 0 {
                Err(Error::EntityNotFound { entity: MC::table(), id })
            } else {
                Ok(())
            }
        },
        Err(e) => Err(Error::from_driver(&e)),
    }
}

/// The filter of a lookup by the value of one column.
pub open spec fn column_filter(column: Seq<char>, value: ValueView) -> Seq<FieldView> {
    seq![FieldView { name: column, value }]
}

/// Selects the columns of the projection `E` from the first row that holds
/// `value` under `column`.
pub fn find_one_by<'a, MC: DbBmc, E: Projection, D>(
    ctx: &Ctx,
    mm: &'a ModelManager<D>,
    column: &str,
    value: Value,
) -> (req: Request<'a, D>)
    ensures
        req.ctx == *ctx,
        *req.db == mm.handle(),
        req.statement@ == select_statement(
            MC::table_name(),
            E::columns(),
            column_filter(column@, value@),
            Fetch::Optional,
        ),
{
    let filters = vec![Field::new(column, value)];
    assert(fields_view(filters@) =~= column_filter(column@, value@));
    let statement = crate::sql::select(
        MC::table(),
        &E::field_names(),
        &filters,
        Fetch::Optional,
    );
    Request { ctx: *ctx, db: mm.db(), statement }
}

/// What a lookup by a column's value gives for the row that the store found,
/// or for none: no row is no error.
pub open spec fn found_one<E: Projection>(row: Option<Seq<FieldView>>) -> Result<
    Option<E::V>,
    ErrorView,
> {
    match row {
        Some(r) => match E::decoded(r) {
            Ok(v) => Ok(Some(v)),
            Err(e) => Err(e),
        },
        None => Ok(None),
    }
}

/// The reply to [`find_one_by`]: the row as an `E`, or `None` where the store
/// found no row. A failure of the store is a `Store` error.
pub fn find_one_by_result<E: Projection>(reply: Result<Option<Row>, DriverError>) -> (out: Result<
    Option<E>,
    Error,
>)
    ensures
        match reply {
            Ok(row) => match found_one::<E>(row_view(row)) {
                Ok(Some(v)) => out is Ok && out->Ok_0 is Some && out->Ok_0->Some_0@ == v,
                Ok(None) => out is Ok && out->Ok_0 is None,
                Err(e) => out is Err && out->Err_0@ == e,
            },
            Err(e) => store_failure(out, e),
        },
{
    match reply {
        Ok(Some(row)) => match E::from_row(&row) {
            Ok(value) => Ok(Some(value)),
            Err(e) => Err(e),
        },
        Ok(None) => Ok(None),
        Err(e) => Err(Error::from_driver(&e)),
    }
}

} // verus!
