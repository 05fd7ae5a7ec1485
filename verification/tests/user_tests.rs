use model_layer::ctx::Ctx;
use model_layer::error::Error;
use model_layer::manager::ModelManager;
use model_layer::row::{Field, Row, Value};
use model_layer::sql::Fetch;
use model_layer::user::{User, UserBmc, UserForAuth, UserForCreate, UserForLogin};
use uuid::Uuid;

fn manager() -> ModelManager<&'static str> {
    match ModelManager::new(Ok("pool")) {
        Ok(mm) => mm,
        Err(e) => panic!("no manager: {:?}", e),
    }
}

fn pwd_salt() -> Uuid {
    Uuid::from_u128(0x0123_4567_89ab_cdef_0123_4567_89ab_cdef)
}

fn token_salt() -> Uuid {
    Uuid::from_u128(0xfedc_ba98_7654_3210_fedc_ba98_7654_3210)
}

fn demo1_row(pwd: Value) -> Row {
    Row::new(vec![
        Field::new("id", Value::Int(1000)),
        Field::new("username", Value::Text("demo1".to_string())),
        Field::new("pwd", pwd),
        Field::new("pwd_salt", Value::Uuid(pwd_salt())),
        Field::new("token_salt", Value::Uuid(token_salt())),
    ])
}

#[test]
fn test_first_ok_demo1() {
    let mm = manager();
    let ctx = Ctx::root_ctx();
    let fx_username = "demo1";

    let req = UserBmc::first_by_username::<User, _>(&ctx, &mm, fx_username);
    assert_eq!(req.statement.binds, vec![Value::Text(fx_username.to_string())]);
    let reply = Ok(Some(demo1_row(Value::Null)));
    let user: User = match UserBmc::first_by_username_result(reply) {
        Ok(Some(user)) => user,
        Ok(None) => panic!("Should have user 'demo1"),
        Err(e) => panic!("lookup failed: {:?}", e),
    };

    assert_eq!(user.username, fx_username);
}

#[test]
fn first_by_username_without_a_match_is_none() {
    let out = UserBmc::first_by_username_result::<User>(Ok(None));
    assert_eq!(out, Ok(None));
    let out = UserBmc::first_by_username_result::<UserForLogin>(Ok(None));
    assert_eq!(out, Ok(None));
    let out = UserBmc::first_by_username_result::<UserForAuth>(Ok(None));
    assert_eq!(out, Ok(None));
}

#[test]
fn first_by_username_statement_for_each_projection() {
    let mm = manager();
    let ctx = Ctx::root_ctx();

    let req = UserBmc::first_by_username::<User, _>(&ctx, &mm, "demo1");
    assert_eq!(
        req.statement.sql,
        "SELECT \"id\", \"username\" FROM \"user\"WHERE \"username\" = $1 "
    );
    assert_eq!(req.statement.binds, vec![Value::Text("demo1".to_string())]);
    assert_eq!(req.statement.fetch, Fetch::Optional);
    assert_eq!(*req.db, "pool");
    assert_eq!(req.ctx, ctx);

    let req = UserBmc::first_by_username::<UserForAuth, _>(&ctx, &mm, "demo1");
    assert_eq!(
        req.statement.sql,
        "SELECT \"id\", \"username\", \"token_salt\" FROM \"user\"WHERE \"username\" = $1 "
    );

    let req = UserBmc::first_by_username::<UserForLogin, _>(&ctx, &mm, "demo1");
    assert_eq!(
        req.statement.sql,
        "SELECT \"id\", \"username\", \"pwd\", \"pwd_salt\", \"token_salt\" FROM \"user\"WHERE \"username\" = $1 "
    );
}

#[test]
fn get_statement_for_each_projection() {
    let mm = manager();
    let ctx = Ctx::root_ctx();

    let req = UserBmc::get::<User, _>(&ctx, &mm, 1000);
    assert_eq!(req.statement.sql, "SELECT \"id\", \"username\" FROM \"user\"WHERE \"id\" = $1 ");
    assert_eq!(req.statement.binds, vec![Value::Int(1000)]);
    assert_eq!(req.statement.fetch, Fetch::Optional);

    let req = UserBmc::get::<UserForAuth, _>(&ctx, &mm, 1000);
    assert_eq!(
        req.statement.sql,
        "SELECT \"id\", \"username\", \"token_salt\" FROM \"user\"WHERE \"id\" = $1 "
    );

    let req = UserBmc::get::<UserForLogin, _>(&ctx, &mm, 1000);
    assert_eq!(
        req.statement.sql,
        "SELECT \"id\", \"username\", \"pwd\", \"pwd_salt\", \"token_salt\" FROM \"user\"WHERE \"id\" = $1 "
    );
}

#[test]
fn get_gives_the_user_or_not_found() {
    let found = UserBmc::get_result::<User>(1000, Ok(Some(demo1_row(Value::Null))));
    assert_eq!(found, Ok(User { id: 1000, username: "demo1".to_string() }));
    let missing = UserBmc::get_result::<User>(77, Ok(None));
    assert_eq!(missing, Err(Error::EntityNotFound { entity: "user", id: 77 }));
    let missing = UserBmc::get_result::<UserForLogin>(77, Ok(None));
    assert_eq!(missing, Err(Error::EntityNotFound { entity: "user", id: 77 }));
}

#[test]
fn projections_of_one_row_agree() {
    let row = demo1_row(Value::Text("#01#hash".to_string()));
    let user = UserBmc::get_result::<User>(1000, Ok(Some(row.clone()))).unwrap();
    let auth = UserBmc::get_result::<UserForAuth>(1000, Ok(Some(row.clone()))).unwrap();
    let login = UserBmc::get_result::<UserForLogin>(1000, Ok(Some(row))).unwrap();

    assert_eq!(user.id, auth.id);
    assert_eq!(user.id, login.id);
    assert_eq!(user.username, auth.username);
    assert_eq!(user.username, login.username);
    assert_eq!(auth.token_salt, login.token_salt);

    assert_eq!(
        login,
        UserForLogin {
            id: 1000,
            username: "demo1".to_string(),
            pwd: Some("#01#hash".to_string()),
            pwd_salt: pwd_salt(),
            token_salt: token_salt(),
        }
    );
    assert_eq!(
        auth,
        UserForAuth { id: 1000, username: "demo1".to_string(), token_salt: token_salt() }
    );
}

#[test]
fn a_null_password_is_none() {
    let login = UserBmc::first_by_username_result::<UserForLogin>(Ok(Some(demo1_row(Value::Null))));
    match login {
        Ok(Some(u)) => assert_eq!(u.pwd, None),
        other => panic!("expected a user, got {:?}", other),
    }
}

#[test]
fn a_narrow_row_does_not_decode_as_a_wide_projection() {
    let narrow = Row::new(vec![
        Field::new("id", Value::Int(1000)),
        Field::new("username", Value::Text("demo1".to_string())),
    ]);
    assert_eq!(
        UserBmc::get_result::<User>(1000, Ok(Some(narrow.clone()))),
        Ok(User { id: 1000, username: "demo1".to_string() })
    );
    assert_eq!(
        UserBmc::get_result::<UserForAuth>(1000, Ok(Some(narrow.clone()))),
        Err(Error::Store("malformed row: token_salt".to_string()))
    );
    assert_eq!(
        UserBmc::get_result::<UserForLogin>(1000, Ok(Some(narrow))),
        Err(Error::Store("malformed row: pwd".to_string()))
    );
}

#[test]
fn a_salt_must_be_an_identifier() {
    let row = Row::new(vec![
        Field::new("id", Value::Int(1)),
        Field::new("username", Value::Text("u".to_string())),
        Field::new("pwd", Value::Int(5)),
        Field::new("pwd_salt", Value::Uuid(pwd_salt())),
        Field::new("token_salt", Value::Text("salt".to_string())),
    ]);
    assert_eq!(
        UserBmc::get_result::<UserForAuth>(1, Ok(Some(row.clone()))),
        Err(Error::Store("malformed row: token_salt".to_string()))
    );
    assert_eq!(
        UserBmc::get_result::<UserForLogin>(1, Ok(Some(row))),
        Err(Error::Store("malformed row: pwd".to_string()))
    );
}

#[test]
fn a_driver_failure_of_a_lookup_is_a_store_error() {
    let out = UserBmc::first_by_username_result::<User>(Err(sqlx::Error::PoolClosed));
    assert_eq!(
        out,
        Err(Error::Store("attempted to acquire a connection on a closed pool".to_string()))
    );
    let out = UserBmc::get_result::<User>(1, Err(sqlx::Error::Protocol("bad frame".to_string())));
    assert_eq!(
        out,
        Err(Error::Store("encountered unexpected or invalid data: bad frame".to_string()))
    );
}

#[test]
fn a_malformed_match_is_an_error_not_none() {
    let row = Row::new(vec![Field::new("id", Value::Int(1))]);
    let out = UserBmc::first_by_username_result::<User>(Ok(Some(row)));
    assert_eq!(out, Err(Error::Store("malformed row: username".to_string())));
}

#[test]
fn create_payload_holds_name_and_clear_password() {
    let c = UserForCreate { username: "demo2".to_string(), pwd_clear: "welcome".to_string() };
    assert_eq!(c.username, "demo2");
    assert_eq!(c.pwd_clear, "welcome");
}
