//! Tasks: the record, its payloads and its controller.

use sqlx::Error as DriverError;
use vstd::prelude::*;

use crate::base::{
    created, decoded_all, deleted, found, key_column, key_filter, row_view, rows_view, views_of,
    DbBmc, Insertable, Projection, Request,
};
use crate::ctx::Ctx;
use crate::error::{shows, store_failure, Error, ErrorView};
use crate::manager::ModelManager;
use crate::row::{
    fields_view, lookup, read_int, read_text, Field, FieldView, Row, Value, ValueView,
};
use crate::sql::{delete_statement, insert_statement, select_statement, texts_of, Fetch};

verus! {

/// A task as the store holds it.
#[derive(Clone, Debug, PartialEq)]
pub struct Task {
    pub id: i64,
    pub title: String,
}

pub struct TaskView {
    pub id: i64,
    pub title: Seq<char>,
}

impl View for Task {
    type V = TaskView;

    open spec fn view(&self) -> TaskView {
        TaskView { id: self.id, title: self.title@ }
    }
}

/// What a client sets when it creates a task. The key is the store's to give.
#[derive(Clone, Debug, PartialEq)]
pub struct TaskForCreate {
    pub title: String,
}

/// What a client may change of a task; `None` leaves the field as it is.
#[derive(Clone, Debug, PartialEq)]
pub struct TaskForUpdate {
    pub title: Option<String>,
}

/// `"id"` and `"title"` are different names.
pub proof fn lemma_task_columns_differ()
    ensures
        "id"@ != "title"@,
{
    reveal_strlit("id");
    reveal_strlit("title");
    assert("id"@.len() == 2);
    assert("title"@.len() == 5);
}

impl Projection for Task {
    open spec fn columns() -> Seq<Seq<char>> {
        seq!["id"@, "title"@]
    }

    open spec fn decoded(row: Seq<FieldView>) -> Result<TaskView, ErrorView> {
        match read_int(row, "id"@) {
            Err(e) => Err(e),
            Ok(id) => match read_text(row, "title"@) {
                Err(e) => Err(e),
                Ok(title) => Ok(TaskView { id, title }),
            },
        }
    }

    open spec fn field(v: TaskView, column: Seq<char>) -> ValueView {
        if column == "id"@ {
            ValueView::Int(v.id)
        } else {
            ValueView::Text(v.title)
        }
    }

    fn field_names() -> (names: Vec<&'static str>) {
        let names = vec!["id", "title"];
        assert(texts_of(names@) =~= Self::columns());
        names
    }

    fn from_row(row: &Row) -> (out: Result<Task, Error>) {
        let id = row.get_int("id")?;
        let title = row.get_text("title")?;
        Ok(Task { id, title })
    }

    proof fn lemma_reads_columns(row: Seq<FieldView>, column: Seq<char>) {
        lemma_task_columns_differ();
    }

    proof fn lemma_reads_nothing_else(a: Seq<FieldView>, b: Seq<FieldView>) {
        assert(Self::columns()[0] == "id"@);
        assert(Self::columns()[1] == "title"@);
        assert(Self::columns().contains("id"@));
        assert(Self::columns().contains("title"@));
    }
}

impl Insertable for TaskForCreate {
    open spec fn inserted(&self) -> Seq<FieldView> {
        seq![FieldView { name: "title"@, value: ValueView::Text(self.title@) }]
    }

    fn fields(&self) -> (fields: Vec<Field>) {
        let fields = vec![Field::new("title", Value::Text(self.title.clone()))];
        assert(fields_view(fields@) =~= self.inserted());
        fields
    }

    proof fn lemma_writes_no_key(&self) {
        lemma_task_columns_differ();
        reveal_with_fuel(lookup, 2);
    }
}

/// The controller of the table `task`.
pub struct TaskBmc;

impl DbBmc for TaskBmc {
    open spec fn table_name() -> Seq<char> {
        "task"@
    }

    fn table() -> (t: &'static str) {
        "task"
    }
}

impl TaskBmc {
    /// Inserts a task with the payload's title.
    pub fn create<'a, D>(ctx: &Ctx, mm: &'a ModelManager<D>, task_c: TaskForCreate) -> (req: Request<
        'a,
        D,
    >)
        ensures
            req.ctx == *ctx,
            *req.db == mm.handle(),
            req.statement@ == insert_statement("task"@, task_c.inserted(), seq![key_column()]),
    {
        crate::base::create::<TaskBmc, TaskForCreate, D>(ctx, mm, &task_c)
    }

    /// The reply to [`TaskBmc::create`]: the key of the new task.
    pub fn create_result(reply: Result<Row, DriverError>) -> (out: Result<i64, Error>)
        ensures
            match reply {
                Ok(row) => shows(out, created(row@)),
                Err(e) => store_failure(out, e),
            },
    {
        crate::base::create_result(reply)
    }

    /// Selects the task with key `id`.
    pub fn get<'a, D>(ctx: &Ctx, mm: &'a ModelManager<D>, id: i64) -> (req: Request<'a, D>)
        ensures
            req.ctx == *ctx,
            *req.db == mm.handle(),
            req.statement@ == select_statement(
                "task"@,
                Task::columns(),
                key_filter(id),
                Fetch::Optional,
            ),
    {
        crate::base::get::<TaskBmc, Task, D>(ctx, mm, id)
    }

    /// The reply to [`TaskBmc::get`]: the task, or `EntityNotFound` with
    /// entity `task` and the key.
    pub fn get_result(id: i64, reply: Result<Option<Row>, DriverError>) -> (out: Result<Task, Error>)
        ensures
            match reply {
                Ok(row) => shows(out, found::<TaskBmc, Task>(id, row_view(row))),
                Err(e) => store_failure(out, e),
            },
    {
        crate::base::get_result::<TaskBmc, Task>(id, reply)
    }

    /// Selects every task, in the store's own order.
    pub fn list<'a, D>(ctx: &Ctx, mm: &'a ModelManager<D>) -> (req: Request<'a, D>)
        ensures
            req.ctx == *ctx,
            *req.db == mm.handle(),
            req.statement@ == select_statement(
                "task"@,
                Task::columns(),
                Seq::empty(),
                Fetch::All,
            ),
    {
        crate::base::list::<TaskBmc, Task, D>(ctx, mm)
    }

    /// The reply to [`TaskBmc::list`]: the tasks, in the order of the reply.
    pub fn list_result(reply: Result<Vec<Row>, DriverError>) -> (out: Result<Vec<Task>, Error>)
        ensures
            match reply {
                Ok(rows) => match decoded_all::<Task>(rows_view(rows@)) {
                    Ok(values) => out is Ok && views_of(out->Ok_0@) == values,
                    Err(e) => out is Err && out->Err_0@ == e,
                },
                Err(e) => store_failure(out, e),
            },
    {
        crate::base::list_result::<Task>(reply)
    }

    /// Deletes the task with key `id`.
    pub fn delete<'a, D>(ctx: &Ctx, mm: &'a ModelManager<D>, id: i64) -> (req: Request<'a, D>)
        ensures
            req.ctx == *ctx,
            *req.db == mm.handle(),
            req.statement@ == delete_statement("task"@, key_filter(id)),
    {
        crate::base::delete::<TaskBmc, D>(ctx, mm, id)
    }

    /// The reply to [`TaskBmc::delete`]: done, or `EntityNotFound` with
    /// entity `task` and the key where the store deleted no row.
    pub fn delete_result(id: i64, reply: Result<u64, DriverError>) -> (out: Result<(), Error>)
        ensures
            match reply {
                Ok(count) => match deleted::<TaskBmc>(id, count) {
                    Ok(_) => out is Ok,
                    Err(e) => out is Err && out->Err_0@ == e,
                },
                Err(e) => store_failure(out, e),
            },
    {
        crate::base::delete_result::<TaskBmc>(id, reply)
    }
}

} // verus!
