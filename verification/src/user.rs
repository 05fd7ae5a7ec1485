//! Users: one table read through three projections, and its controller.

use sqlx::Error as DriverError;
use vstd::prelude::*;

use crate::base::{
    column_filter, found, found_one, key_filter, row_view, DbBmc, Projection, Request,
};
use crate::ctx::Ctx;
use crate::error::{shows, store_failure, Error, ErrorView};
use crate::manager::ModelManager;
use crate::row::{
    lookup, read_int, read_opt_text, read_text, read_uuid, FieldView, Row, Value, ValueView,
};
use crate::sql::{select_statement, texts_of, Fetch};

verus! {

/// A user as others may see it.
#[derive(Clone, Debug, PartialEq)]
pub struct User {
    pub id: i64,
    pub username: String,
}

pub struct UserView {
    pub id: i64,
    pub username: Seq<char>,
}

impl View for User {
    type V = UserView;

    open spec fn view(&self) -> UserView {
        UserView { id: self.id, username: self.username@ }
    }
}

/// What a client sets when it creates a user. The key is the store's to give.
#[derive(Clone, Debug, PartialEq)]
pub struct UserForCreate {
    pub username: String,
    pub pwd_clear: String,
}

/// A user as a login reads it: with the password and both salts.
#[derive(Clone, Debug, PartialEq)]
pub struct UserForLogin {
    pub id: i64,
    pub username: String,
    pub pwd: Option<String>,
    pub pwd_salt: uuid::Uuid,
    pub token_salt: uuid::Uuid,
}

pub struct UserForLoginView {
    pub id: i64,
    pub username: Seq<char>,
    pub pwd: Option<Seq<char>>,
    pub pwd_salt: uuid::Uuid,
    pub token_salt: uuid::Uuid,
}

impl View for UserForLogin {
    type V = UserForLoginView;

    open spec fn view(&self) -> UserForLoginView {
        UserForLoginView {
            id: self.id,
            username: self.username@,
            pwd: match self.pwd {
                Some(p) => Some(p@),
                None => None,
            },
            pwd_salt: self.pwd_salt,
            token_salt: self.token_salt,
        }
    }
}

/// A user as the check of a token reads it: with the token's salt.
#[derive(Clone, Debug, PartialEq)]
pub struct UserForAuth {
    pub id: i64,
    pub username: String,
    pub token_salt: uuid::Uuid,
}

pub struct UserForAuthView {
    pub id: i64,
    pub username: Seq<char>,
    pub token_salt: uuid::Uuid,
}

impl View for UserForAuth {
    type V = UserForAuthView;

    open spec fn view(&self) -> UserForAuthView {
        UserForAuthView { id: self.id, username: self.username@, token_salt: self.token_salt }
    }
}

/// The names of the columns of `user` differ from one another.
pub proof fn lemma_user_columns_differ()
    ensures
        "id"@ != "username"@,
        "id"@ != "pwd"@,
        "id"@ != "pwd_salt"@,
        "id"@ != "token_salt"@,
        "username"@ != "pwd"@,
        "username"@ != "pwd_salt"@,
        "username"@ != "token_salt"@,
        "pwd"@ != "pwd_salt"@,
        "pwd"@ != "token_salt"@,
        "pwd_salt"@ != "token_salt"@,
{
    reveal_strlit("id");
    reveal_strlit("username");
    reveal_strlit("pwd");
    reveal_strlit("pwd_salt");
    reveal_strlit("token_salt");
    assert("id"@.len() == 2);
    assert("username"@.len() == 8);
    assert("pwd"@.len() == 3);
    assert("pwd_salt"@.len() == 8);
    assert("token_salt"@.len() == 10);
    assert("username"@[0] == 'u');
    assert("pwd_salt"@[0] == 'p');
}

/// The value that stands for a password that may be missing.
pub open spec fn pwd_value(pwd: Option<Seq<char>>) -> ValueView {
    match pwd {
        Some(p) => ValueView::Text(p),
        None => ValueView::Null,
    }
}

impl Projection for User {
    open spec fn columns() -> Seq<Seq<char>> {
        seq!["id"@, "username"@]
    }

    open spec fn decoded(row: Seq<FieldView>) -> Result<UserView, ErrorView> {
        match read_int(row, "id"@) {
            Err(e) => Err(e),
            Ok(id) => match read_text(row, "username"@) {
                Err(e) => Err(e),
                Ok(username) => Ok(UserView { id, username }),
            },
        }
    }

    open spec fn field(v: UserView, column: Seq<char>) -> ValueView {
        if column == "id"@ {
            ValueView::Int(v.id)
        } else {
            ValueView::Text(v.username)
        }
    }

    fn field_names() -> (names: Vec<&'static str>) {
        let names = vec!["id", "username"];
        assert(texts_of(names@) =~= Self::columns());
        names
    }

    fn from_row(row: &Row) -> (out: Result<User, Error>) {
        let id = row.get_int("id")?;
        let username = row.get_text("username")?;
        Ok(User { id, username })
    }

    proof fn lemma_reads_columns(row: Seq<FieldView>, column: Seq<char>) {
        lemma_user_columns_differ();
    }

    proof fn lemma_reads_nothing_else(a: Seq<FieldView>, b: Seq<FieldView>) {
        assert(Self::columns()[0] == "id"@);
        assert(Self::columns()[1] == "username"@);
        assert(Self::columns().contains("id"@));
        assert(Self::columns().contains("username"@));
    }
}

impl Projection for UserForLogin {
    open spec fn columns() -> Seq<Seq<char>> {
        seq!["id"@, "username"@, "pwd"@, "pwd_salt"@, "token_salt"@]
    }

    open spec fn decoded(row: Seq<FieldView>) -> Result<UserForLoginView, ErrorView> {
        match read_int(row, "id"@) {
            Err(e) => Err(e),
            Ok(id) => match read_text(row, "username"@) {
                Err(e) => Err(e),
                Ok(username) => match read_opt_text(row, "pwd"@) {
                    Err(e) => Err(e),
                    Ok(pwd) => match read_uuid(row, "pwd_salt"@) {
                        Err(e) => Err(e),
                        Ok(pwd_salt) => match read_uuid(row, "token_salt"@) {
                            Err(e) => Err(e),
                            Ok(token_salt) => Ok(
                                UserForLoginView { id, username, pwd, pwd_salt, token_salt },
                            ),
                        },
                    },
                },
            },
        }
    }

    open spec fn field(v: UserForLoginView, column: Seq<char>) -> ValueView {
        if column == "id"@ {
            ValueView::Int(v.id)
        } else if column == "username"@ {
            ValueView::Text(v.username)
        } else if column == "pwd"@ {
            pwd_value(v.pwd)
        } else if column == "pwd_salt"@ {
            ValueView::Uuid(v.pwd_salt)
        } else {
            ValueView::Uuid(v.token_salt)
        }
    }

    fn field_names() -> (names: Vec<&'static str>) {
        let names = vec!["id", "username", "pwd", "pwd_salt", "token_salt"];
        assert(texts_of(names@) =~= Self::columns());
        names
    }

    fn from_row(row: &Row) -> (out: Result<UserForLogin, Error>) {
        let id = row.get_int("id")?;
        let username = row.get_text("username")?;
        let pwd = row.get_opt_text("pwd")?;
        let pwd_salt = row.get_uuid("pwd_salt")?;
        let token_salt = row.get_uuid("token_salt")?;
        Ok(UserForLogin { id, username, pwd, pwd_salt, token_salt })
    }

    proof fn lemma_reads_columns(row: Seq<FieldView>, column: Seq<char>) {
        lemma_user_columns_differ();
    }

    proof fn lemma_reads_nothing_else(a: Seq<FieldView>, b: Seq<FieldView>) {
        assert(Self::columns()[0] == "id"@);
        assert(Self::columns()[1] == "username"@);
        assert(Self::columns()[2] == "pwd"@);
        assert(Self::columns()[3] == "pwd_salt"@);
        assert(Self::columns()[4] == "token_salt"@);
        assert(Self::columns().contains("id"@));
        assert(Self::columns().contains("username"@));
        assert(Self::columns().contains("pwd"@));
        assert(Self::columns().contains("pwd_salt"@));
        assert(Self::columns().contains("token_salt"@));
    }
}

impl Projection for UserForAuth {
    open spec fn columns() -> Seq<Seq<char>> {
        seq!["id"@, "username"@, "token_salt"@]
    }

    open spec fn decoded(row: Seq<FieldView>) -> Result<UserForAuthView, ErrorView> {
        match read_int(row, "id"@) {
            Err(e) => Err(e),
            Ok(id) => match read_text(row, "username"@) {
                Err(e) => Err(e),
                Ok(username) => match read_uuid(row, "token_salt"@) {
                    Err(e) => Err(e),
                    Ok(token_salt) => Ok(UserForAuthView { id, username, token_salt }),
                },
            },
        }
    }

    open spec fn field(v: UserForAuthView, column: Seq<char>) -> ValueView {
        if column == "id"@ {
            ValueView::Int(v.id)
        } else if column == "username"@ {
            ValueView::Text(v.username)
        } else {
            ValueView::Uuid(v.token_salt)
        }
    }

    fn field_names() -> (names: Vec<&'static str>) {
        let names = vec!["id", "username", "token_salt"];
        assert(texts_of(names@) =~= Self::columns());
        names
    }

    fn from_row(row: &Row) -> (out: Result<UserForAuth, Error>) {
        let id = row.get_int("id")?;
        let username = row.get_text("username")?;
        let token_salt = row.get_uuid("token_salt")?;
        Ok(UserForAuth { id, username, token_salt })
    }

    proof fn lemma_reads_columns(row: Seq<FieldView>, column: Seq<char>) {
        lemma_user_columns_differ();
    }

    proof fn lemma_reads_nothing_else(a: Seq<FieldView>, b: Seq<FieldView>) {
        assert(Self::columns()[0] == "id"@);
        assert(Self::columns()[1] == "username"@);
        assert(Self::columns()[2] == "token_salt"@);
        assert(Self::columns().contains("id"@));
        assert(Self::columns().contains("username"@));
        assert(Self::columns().contains("token_salt"@));
    }
}

/// Marks the projections of the table `user`.
pub trait UserBy: Projection {

}

impl UserBy for User {

}

impl UserBy for UserForLogin {

}

impl UserBy for UserForAuth {

}

/// The controller of the table `user`.
pub struct UserBmc;

impl DbBmc for UserBmc {
    open spec fn table_name() -> Seq<char> {
        "user"@
    }

    fn table() -> (t: &'static str) {
        "user"
    }
}

impl UserBmc {
    /// Selects the user with key `id`, in the projection `E`.
    pub fn get<'a, E: UserBy, D>(ctx: &Ctx, mm: &'a ModelManager<D>, id: i64) -> (req: Request<'a, D>)
        ensures
            req.ctx == *ctx,
            *req.db == mm.handle(),
            req.statement@ == select_statement(
                "user"@,
                E::columns(),
                key_filter(id),
                Fetch::Optional,
            ),
    {
        crate::base::get::<UserBmc, E, D>(ctx, mm, id)
    }

    /// The reply to [`UserBmc::get`]: the user, or `EntityNotFound` with
    /// entity `user` and the key.
    pub fn get_result<E: UserBy>(id: i64, reply: Result<Option<Row>, DriverError>) -> (out: Result<
        E,
        Error,
    >)
        ensures
            match reply {
                Ok(row) => shows(out, found::<UserBmc, E>(id, row_view(row))),
                Err(e) => store_failure(out, e),
            },
    {
        crate::base::get_result::<UserBmc, E>(id, reply)
    }

    /// Selects the first user of that name, in the projection `E`.
    pub fn first_by_username<'a, E: UserBy, D>(
        ctx: &Ctx,
        mm: &'a ModelManager<D>,
        username: &str,
    ) -> (req: Request<'a, D>)
        ensures
            req.ctx == *ctx,
            *req.db == mm.handle(),
            req.statement@ == select_statement(
                "user"@,
                E::columns(),
                column_filter("username"@, ValueView::Text(username@)),
                Fetch::Optional,
            ),
    {
        crate::base::find_one_by::<UserBmc, E, D>(
            ctx,
            mm,
            "username",
            Value::Text(username.to_owned()),
        )
    }

    /// The reply to [`UserBmc::first_by_username`]: the user, or `None` where
    /// no user has that name.
    pub fn first_by_username_result<E: UserBy>(reply: Result<Option<Row>, DriverError>) -> (out:
        Result<Option<E>, Error>)
        ensures
            match reply {
                Ok(row) => match found_one::<E>(row_view(row)) {
                    Ok(Some(v)) => out is Ok && out->Ok_0 is Some && out->Ok_0->Some_0@ == v,
                    Ok(None) => out is Ok && out->Ok_0 is None,
                    Err(e) => out is Err && out->Err_0@ == e,
                },
                Err(e) => store_failure(out, e),
            },
    {
        crate::base::find_one_by_result::<E>(reply)
    }
}

} // verus!
