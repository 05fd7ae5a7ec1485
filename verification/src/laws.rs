//! What holds of the controllers against a store that keeps what it is
//! given. The store itself is outside the model layer; here it is a map from
//! keys to rows, and its replies are what such a map answers.

use vstd::prelude::*;

use crate::base::{
    created, deleted, found, found_one, key_column, DbBmc, Insertable, Projection,
};
use crate::error::ErrorView;
use crate::row::{lookup, FieldView, ValueView};
use crate::task::{lemma_task_columns_differ, Task, TaskBmc, TaskForCreate, TaskView};
use crate::user::{User, UserForAuth, UserForLogin};

verus! {

/// The rows of a table, by key.
pub type Table = Map<i64, Seq<FieldView>>;

/// The part of a row that a select of `columns` hands back: one field for
/// each column, in their order. A column that the row lacks reads as null.
pub open spec fn projected(row: Seq<FieldView>, columns: Seq<Seq<char>>) -> Seq<FieldView> {
    Seq::new(
        columns.len(),
        |i: int|
            FieldView {
                name: columns[i],
                value: match lookup(row, columns[i]) {
                    Some(v) => v,
                    None => ValueView::Null,
                },
            },
    )
}

/// Whether the row has every one of the columns.
pub open spec fn has_columns(row: Seq<FieldView>, columns: Seq<Seq<char>>) -> bool {
    forall|i: int| 0 <= i < columns.len() ==> lookup(row, #[trigger] columns[i]) is Some
}

/// Whether `row` is a row that a store may keep for an insert of `fields`
/// to which it gave the key `id`: the key stands under the key column, and
/// each inserted column holds what was inserted. The store may add columns
/// of its own.
pub open spec fn keeps(row: Seq<FieldView>, id: i64, fields: Seq<FieldView>) -> bool {
    &&& lookup(row, key_column()) == Some(ValueView::Int(id))
    &&& forall|name: Seq<char>| #[trigger]
        lookup(fields, name) is Some ==> lookup(row, name) == lookup(fields, name)
}

/// The row that the table holds after an insert of `fields` to which the
/// store gave the key `id`: the key, then the fields.
pub open spec fn kept(id: i64, fields: Seq<FieldView>) -> Seq<FieldView> {
    seq![FieldView { name: key_column(), value: ValueView::Int(id) }] + fields
}

/// The table after an insert of `fields` to which the store gave the key
/// `id`.
pub open spec fn after_insert(table: Table, id: i64, fields: Seq<FieldView>) -> Table {
    table.insert(id, kept(id, fields))
}

/// The reply to an insert that hands back the key.
pub open spec fn returned(row: Seq<FieldView>) -> Seq<FieldView> {
    projected(row, seq![key_column()])
}

/// The reply to a select of `columns` by key.
pub open spec fn selected(table: Table, id: i64, columns: Seq<Seq<char>>) -> Option<
    Seq<FieldView>,
> {
    if table.dom().contains(id) {
        Some(projected(table[id], columns))
    } else {
        None
    }
}

/// The reply to a delete by key: the number of rows that went.
pub open spec fn delete_count(table: Table, id: i64) -> u64 {
    if table.dom().contains(id) {
        1
    } else {
        0
    }
}

/// Whether some row of the table holds `value` under `column`.
pub open spec fn has_match(table: Table, column: Seq<char>, value: ValueView) -> bool {
    exists|id: i64| #[trigger] table.dom().contains(id) && lookup(table[id], column) == Some(value)
}

/// The reply to a select of `columns` from the first row that holds `value`
/// under `column`. Which of several such rows is the first is the store's
/// choice.
pub open spec fn selected_by(
    table: Table,
    column: Seq<char>,
    value: ValueView,
    columns: Seq<Seq<char>>,
) -> Option<Seq<FieldView>> {
    if has_match(table, column, value) {
        let id = choose|id: i64| #[trigger]
            table.dom().contains(id) && lookup(table[id], column) == Some(value);
        Some(projected(table[id], columns))
    } else {
        None
    }
}

/// A select hands back, under each column that it names, what the row holds
/// under it.
pub proof fn lemma_projected_lookup(row: Seq<FieldView>, columns: Seq<Seq<char>>, column: Seq<char>)
    requires
        columns.contains(column),
        lookup(row, column) is Some,
    ensures
        lookup(projected(row, columns), column) == lookup(row, column),
    decreases columns.len(),
{
    let p = projected(row, columns);
    if columns.last() != column {
        let i = choose|i: int| 0 <= i < columns.len() && columns[i] == column;
        assert(columns.drop_last()[i] == column);
        assert(p.drop_last() =~= projected(row, columns.drop_last()));
        lemma_projected_lookup(row, columns.drop_last(), column);
    }
}

/// Reading a row through a projection is reading the columns that the
/// projection declares: the row that a select of exactly these columns hands
/// back decodes as the whole row does.
pub proof fn lemma_select_reads_enough<E: Projection>(row: Seq<FieldView>)
    requires
        has_columns(row, E::columns()),
    ensures
        E::decoded(projected(row, E::columns())) == E::decoded(row),
{
    let p = projected(row, E::columns());
    assert forall|column: Seq<char>| #[trigger]
        E::columns().contains(column) implies lookup(p, column) == lookup(row, column) by {
        let i = choose|i: int| 0 <= i < E::columns().len() && E::columns()[i] == column;
        assert(lookup(row, E::columns()[i]) is Some);
        lemma_projected_lookup(row, E::columns(), column);
    }
    E::lemma_reads_nothing_else(p, row);
}

/// A lookup in a row that starts with other fields finds what the last
/// fields hold, and falls back on the first ones.
pub proof fn lemma_lookup_concat(first: Seq<FieldView>, last: Seq<FieldView>, name: Seq<char>)
    ensures
        lookup(first + last, name) == match lookup(last, name) {
            Some(v) => Some(v),
            None => lookup(first, name),
        },
    decreases last.len(),
{
    if last.len() == 0 {
        assert(first + last =~= first);
    } else {
        assert((first + last).last() == last.last());
        assert((first + last).drop_last() =~= first + last.drop_last());
        lemma_lookup_concat(first, last.drop_last(), name);
    }
}

/// The row of an insert keeps the key and the payload's fields.
pub proof fn lemma_kept_keeps<I: Insertable>(data: I, id: i64)
    ensures
        keeps(kept(id, data.inserted()), id, data.inserted()),
{
    let key = seq![FieldView { name: key_column(), value: ValueView::Int(id) }];
    data.lemma_writes_no_key();
    assert forall|name: Seq<char>|
        lookup(kept(id, data.inserted()), name) == match lookup(data.inserted(), name) {
            Some(v) => Some(v),
            None => lookup(key, name),
        } by {
        lemma_lookup_concat(key, data.inserted(), name);
    }
    assert(key.last().name == key_column());
}

/// The round trip against any store that keeps what it is given. Where
/// `row` is what the store kept of a created task under the key `id`, the
/// reply to the insert decodes to `id`, and the reply to a select of that
/// key decodes to the task with that key and the payload's title.
pub proof fn lemma_kept_row_reads_back(task_c: TaskForCreate, id: i64, row: Seq<FieldView>)
    requires
        keeps(row, id, task_c.inserted()),
    ensures
        created(returned(row)) == Ok::<i64, ErrorView>(id),
        Task::decoded(projected(row, Task::columns())) == Ok::<TaskView, ErrorView>(
            TaskView { id, title: task_c.title@ },
        ),
{
    lemma_task_columns_differ();
    let keys = seq![key_column()];
    assert(keys[0] == key_column());
    lemma_projected_lookup(row, keys, key_column());
    assert(lookup(task_c.inserted(), "title"@) == Some(ValueView::Text(task_c.title@)));
    assert(lookup(row, "title"@) == Some(ValueView::Text(task_c.title@)));
    assert(has_columns(row, Task::columns()));
    lemma_select_reads_enough::<Task>(row);
}

/// Round trip. For every payload and every key that the store gives the new
/// row: `create` hands back that key, and `get` with it gives the task with
/// that key and the payload's title.
pub proof fn lemma_create_then_get(table: Table, task_c: TaskForCreate, id: i64)
    ensures
        created(returned(after_insert(table, id, task_c.inserted())[id])) == Ok::<i64, ErrorView>(id),
        found::<TaskBmc, Task>(
            id,
            selected(after_insert(table, id, task_c.inserted()), id, Task::columns()),
        ) == Ok::<TaskView, ErrorView>(TaskView { id, title: task_c.title@ }),
{
    lemma_kept_keeps(task_c, id);
    lemma_kept_row_reads_back(task_c, id, kept(id, task_c.inserted()));
}

/// A key that the table does not hold, because it was never given out or
/// because its row was deleted, is not found: `get` and `delete` both fail
/// with `EntityNotFound` for the controller's entity and that key.
pub proof fn lemma_unknown_key_not_found<MC: DbBmc, E: Projection>(table: Table, id: i64)
    requires
        !table.dom().contains(id),
    ensures
        found::<MC, E>(id, selected(table, id, E::columns())) == Err::<E::V, ErrorView>(
            ErrorView::EntityNotFound { entity: MC::table_name(), id },
        ),
        deleted::<MC>(id, delete_count(table, id)) == Err::<(), ErrorView>(
            ErrorView::EntityNotFound { entity: MC::table_name(), id },
        ),
{
}

/// Deleting a key twice: the first delete succeeds, and the second, on the
/// table without that row, fails with `EntityNotFound`.
pub proof fn lemma_delete_twice<MC: DbBmc>(table: Table, id: i64)
    requires
        table.dom().contains(id),
    ensures
        deleted::<MC>(id, delete_count(table, id)) is Ok,
        deleted::<MC>(id, delete_count(table.remove(id), id)) == Err::<(), ErrorView>(
            ErrorView::EntityNotFound { entity: MC::table_name(), id },
        ),
{
}

/// After a delete the key is gone for `get` too.
pub proof fn lemma_get_after_delete<MC: DbBmc, E: Projection>(table: Table, id: i64)
    ensures
        found::<MC, E>(id, selected(table.remove(id), id, E::columns())) == Err::<E::V, ErrorView>(
            ErrorView::EntityNotFound { entity: MC::table_name(), id },
        ),
{
}

/// A lookup by a value that no row holds gives nothing, and no error.
pub proof fn lemma_find_without_match<E: Projection>(
    table: Table,
    column: Seq<char>,
    value: ValueView,
)
    requires
        !has_match(table, column, value),
    ensures
        found_one::<E>(selected_by(table, column, value, E::columns())) == Ok::<
            Option<E::V>,
            ErrorView,
        >(None),
{
}

/// Two projections of one row agree on every column that both declare.
pub proof fn lemma_projections_agree<A: Projection, B: Projection>(
    row: Seq<FieldView>,
    column: Seq<char>,
)
    requires
        A::decoded(row) is Ok,
        B::decoded(row) is Ok,
        A::columns().contains(column),
        B::columns().contains(column),
    ensures
        A::field(A::decoded(row)->Ok_0, column) == B::field(B::decoded(row)->Ok_0, column),
{
    A::lemma_reads_columns(row, column);
    B::lemma_reads_columns(row, column);
}

/// The three projections of a user, read from one row, show the same key and
/// name, and the two that have the token's salt show the same salt. A row
/// that the widest projection can read, the narrower ones can read too.
pub proof fn lemma_user_projections_agree(row: Seq<FieldView>)
    requires
        UserForLogin::decoded(row) is Ok,
    ensures
        User::decoded(row) is Ok,
        UserForAuth::decoded(row) is Ok,
        User::decoded(row)->Ok_0.id == UserForLogin::decoded(row)->Ok_0.id,
        User::decoded(row)->Ok_0.username == UserForLogin::decoded(row)->Ok_0.username,
        UserForAuth::decoded(row)->Ok_0.id == UserForLogin::decoded(row)->Ok_0.id,
        UserForAuth::decoded(row)->Ok_0.username == UserForLogin::decoded(row)->Ok_0.username,
        UserForAuth::decoded(row)->Ok_0.token_salt == UserForLogin::decoded(row)->Ok_0.token_salt,
{
}

} // verus!
