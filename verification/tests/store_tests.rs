use model_layer::base::{
    create, create_result, delete, delete_result, find_one_by, find_one_by_result, get, get_result,
    list, list_result, Insertable, Projection,
};
use model_layer::ctx::Ctx;
use model_layer::error::Error;
use model_layer::manager::ModelManager;
use model_layer::row::{Field, Row, Value};
use model_layer::sql::{self, Fetch};
use model_layer::task::{Task, TaskBmc, TaskForCreate};
use model_layer::user::{User, UserBmc, UserForAuth, UserForLogin};
use uuid::Uuid;

#[test]
fn manager_hands_out_the_handle_it_was_given() {
    let mm = match ModelManager::new(Ok(String::from("handle"))) {
        Ok(mm) => mm,
        Err(e) => panic!("no manager: {:?}", e),
    };
    assert_eq!(mm.db(), "handle");
    let copy = mm.clone();
    assert_eq!(copy.db(), mm.db());
}

#[test]
fn manager_without_a_pool_is_pool_init() {
    let out = ModelManager::<u8>::new(Err(sqlx::Error::PoolTimedOut));
    match out {
        Err(Error::PoolInit(detail)) => {
            assert_eq!(detail, "pool timed out while waiting for an open connection")
        }
        Err(other) => panic!("expected PoolInit, got {:?}", other),
        Ok(_) => panic!("expected PoolInit, got a manager"),
    }
}

#[test]
fn manager_with_a_bad_configuration_is_pool_init() {
    let io = std::io::Error::new(std::io::ErrorKind::ConnectionRefused, "refused");
    let out = ModelManager::<u8>::new(Err(sqlx::Error::Io(io)));
    match out {
        Err(Error::PoolInit(detail)) => {
            assert_eq!(detail, "error communicating with database: refused")
        }
        Err(other) => panic!("expected PoolInit, got {:?}", other),
        Ok(_) => panic!("expected PoolInit, got a manager"),
    }
}

#[test]
fn root_context_is_key_zero() {
    let root = Ctx::root_ctx();
    assert_eq!(root.user_id(), 0);
}

#[test]
fn a_users_context_is_never_the_root() {
    assert_eq!(Ctx::new(0), None);
    assert_eq!(Ctx::new(1).map(|c| c.user_id()), Some(1));
    assert_eq!(Ctx::new(-1).map(|c| c.user_id()), Some(-1));
    assert_eq!(Ctx::new(i64::MAX).map(|c| c.user_id()), Some(i64::MAX));
    assert_ne!(Ctx::new(1), Some(Ctx::root_ctx()));
}

#[test]
fn errors_tell_not_found_from_the_rest() {
    assert!(Error::EntityNotFound { entity: "task", id: 1 }.is_not_found());
    assert!(!Error::Store("x".to_string()).is_not_found());
    assert!(!Error::PoolInit("x".to_string()).is_not_found());
}

#[test]
fn driver_errors_keep_their_text() {
    let e = sqlx::Error::ColumnNotFound("title".to_string());
    assert_eq!(
        Error::from_driver(&e),
        Error::Store("no column found for name: title".to_string())
    );
    assert_eq!(
        Error::from_pool(&e),
        Error::PoolInit("no column found for name: title".to_string())
    );
    assert_eq!(
        Error::from_driver(&sqlx::Error::WorkerCrashed),
        Error::Store("attempted to communicate with a crashed background worker".to_string())
    );
}

#[test]
fn row_get_finds_the_value_under_a_name() {
    let row = Row::new(vec![
        Field::new("id", Value::Int(4)),
        Field::new("title", Value::Text("t".to_string())),
    ]);
    assert_eq!(row.get("id"), Some(&Value::Int(4)));
    assert_eq!(row.get("title"), Some(&Value::Text("t".to_string())));
    assert_eq!(row.get("Title"), None);
    assert_eq!(row.get(""), None);
    assert_eq!(Row::new(Vec::new()).get("id"), None);
}

#[test]
fn row_get_takes_the_last_of_a_repeated_name() {
    let row = Row::new(vec![
        Field::new("id", Value::Int(1)),
        Field::new("x", Value::Null),
        Field::new("id", Value::Int(2)),
    ]);
    assert_eq!(row.get("id"), Some(&Value::Int(2)));
    assert_eq!(row.get_int("id"), Ok(2));
}

#[test]
fn typed_reads() {
    let salt = Uuid::from_u128(99);
    let row = Row::new(vec![
        Field::new("n", Value::Int(-3)),
        Field::new("t", Value::Text("text".to_string())),
        Field::new("z", Value::Null),
        Field::new("u", Value::Uuid(salt)),
    ]);
    assert_eq!(row.get_int("n"), Ok(-3));
    assert_eq!(row.get_text("t"), Ok("text".to_string()));
    assert_eq!(row.get_opt_text("t"), Ok(Some("text".to_string())));
    assert_eq!(row.get_opt_text("z"), Ok(None));
    assert_eq!(row.get_uuid("u"), Ok(salt));

    assert_eq!(row.get_int("t"), Err(Error::Store("malformed row: t".to_string())));
    assert_eq!(row.get_int("z"), Err(Error::Store("malformed row: z".to_string())));
    assert_eq!(row.get_text("n"), Err(Error::Store("malformed row: n".to_string())));
    assert_eq!(row.get_text("z"), Err(Error::Store("malformed row: z".to_string())));
    assert_eq!(row.get_opt_text("n"), Err(Error::Store("malformed row: n".to_string())));
    assert_eq!(row.get_opt_text("none"), Err(Error::Store("malformed row: none".to_string())));
    assert_eq!(row.get_uuid("t"), Err(Error::Store("malformed row: t".to_string())));
    assert_eq!(row.get_uuid("none"), Err(Error::Store("malformed row: none".to_string())));
}

#[test]
fn value_duplicate_is_the_same_value() {
    let salt = Uuid::from_u128(5);
    for v in [Value::Null, Value::Int(i64::MIN), Value::Text("é".to_string()), Value::Uuid(salt)] {
        assert_eq!(v.duplicate(), v);
    }
}

#[test]
fn field_new_keeps_name_and_value() {
    let f = Field::new("title", Value::Int(1));
    assert_eq!(f.name, "title");
    assert_eq!(f.value, Value::Int(1));
}

#[test]
fn select_text_names_columns_and_filters_in_order() {
    let filters = vec![
        Field::new("a", Value::Int(1)),
        Field::new("b", Value::Text("x".to_string())),
        Field::new("c", Value::Null),
        Field::new("d", Value::Uuid(Uuid::from_u128(1))),
    ];
    let st = sql::select("t", &vec!["x", "y"], &filters, Fetch::All);
    assert_eq!(
        st.sql,
        "SELECT \"x\", \"y\" FROM \"t\"WHERE \"a\" = $1 AND \"b\" = $2 AND \"c\" = $3 AND \"d\" = $4 "
    );
    assert_eq!(
        st.binds,
        vec![
            Value::Int(1),
            Value::Text("x".to_string()),
            Value::Null,
            Value::Uuid(Uuid::from_u128(1)),
        ]
    );
    assert_eq!(st.fetch, Fetch::All);
}

#[test]
fn insert_text_names_columns_and_returning() {
    let fields = vec![
        Field::new("username", Value::Text("demo1".to_string())),
        Field::new("age", Value::Int(3)),
    ];
    let st = sql::insert("user", &fields, &vec!["id", "username"]);
    assert_eq!(
        st.sql,
        "INSERT INTO \"user\"(\"username\", \"age\") VALUES ($1, $2) RETURNING \"id\", \"username\" "
    );
    assert_eq!(st.binds, vec![Value::Text("demo1".to_string()), Value::Int(3)]);
    assert_eq!(st.fetch, Fetch::One);
}

#[test]
fn delete_without_a_filter_is_no_statement() {
    assert_eq!(sql::delete("task", &Vec::new()), None);
    let st = sql::delete("task", &vec![Field::new("id", Value::Int(1))]);
    match st {
        Some(st) => {
            assert_eq!(st.sql, "DELETE FROM \"task\"WHERE \"id\" = $1 ");
            assert_eq!(st.binds, vec![Value::Int(1)]);
            assert_eq!(st.fetch, Fetch::Affected);
        }
        None => panic!("a delete with a filter is a statement"),
    }
}

#[test]
fn projections_declare_their_columns() {
    assert_eq!(Task::field_names(), vec!["id", "title"]);
    assert_eq!(User::field_names(), vec!["id", "username"]);
    assert_eq!(UserForAuth::field_names(), vec!["id", "username", "token_salt"]);
    assert_eq!(
        UserForLogin::field_names(),
        vec!["id", "username", "pwd", "pwd_salt", "token_salt"]
    );
}

#[test]
fn create_payload_writes_the_title_and_no_key() {
    let fields = TaskForCreate { title: "t".to_string() }.fields();
    assert_eq!(fields, vec![Field::new("title", Value::Text("t".to_string()))]);
    assert!(fields.iter().all(|f| f.name != "id"));
}

#[test]
fn the_table_controller_serves_any_table_and_projection() {
    let mm = match ModelManager::new(Ok(1u8)) {
        Ok(mm) => mm,
        Err(e) => panic!("no manager: {:?}", e),
    };
    let ctx = Ctx::root_ctx();

    let req = get::<UserBmc, Task, _>(&ctx, &mm, 1);
    assert_eq!(req.statement.sql, "SELECT \"id\", \"title\" FROM \"user\"WHERE \"id\" = $1 ");

    let req = list::<UserBmc, UserForAuth, _>(&ctx, &mm);
    assert_eq!(req.statement.sql, "SELECT \"id\", \"username\", \"token_salt\" FROM \"user\"");

    let req = delete::<UserBmc, _>(&ctx, &mm, 3);
    assert_eq!(req.statement.sql, "DELETE FROM \"user\"WHERE \"id\" = $1 ");
    assert_eq!(req.statement.binds, vec![Value::Int(3)]);

    let req = create::<UserBmc, _, _>(&ctx, &mm, &TaskForCreate { title: "t".to_string() });
    assert_eq!(req.statement.sql, "INSERT INTO \"user\"(\"title\") VALUES ($1) RETURNING \"id\" ");

    let req = find_one_by::<TaskBmc, Task, _>(&ctx, &mm, "title", Value::Text("t".to_string()));
    assert_eq!(req.statement.sql, "SELECT \"id\", \"title\" FROM \"task\"WHERE \"title\" = $1 ");
    assert_eq!(req.statement.binds, vec![Value::Text("t".to_string())]);
    assert_eq!(req.statement.fetch, Fetch::Optional);
}

#[test]
fn the_table_controller_names_its_entity_in_not_found() {
    assert_eq!(
        get_result::<UserBmc, User>(5, Ok(None)),
        Err(Error::EntityNotFound { entity: "user", id: 5 })
    );
    assert_eq!(
        delete_result::<UserBmc>(5, Ok(0)),
        Err(Error::EntityNotFound { entity: "user", id: 5 })
    );
    assert_eq!(delete_result::<UserBmc>(5, Ok(1)), Ok(()));
}

#[test]
fn find_one_by_without_a_match_is_none_not_an_error() {
    assert_eq!(find_one_by_result::<Task>(Ok(None)), Ok(None));
    let row = Row::new(vec![
        Field::new("id", Value::Int(2)),
        Field::new("title", Value::Text("t".to_string())),
    ]);
    assert_eq!(
        find_one_by_result::<Task>(Ok(Some(row))),
        Ok(Some(Task { id: 2, title: "t".to_string() }))
    );
}

#[test]
fn generic_create_and_list_results() {
    let key = Row::new(vec![Field::new("id", Value::Int(i64::MAX))]);
    assert_eq!(create_result(Ok(key)), Ok(i64::MAX));
    let rows = vec![Row::new(vec![
        Field::new("id", Value::Int(1)),
        Field::new("username", Value::Text("demo1".to_string())),
    ])];
    assert_eq!(
        list_result::<User>(Ok(rows)),
        Ok(vec![User { id: 1, username: "demo1".to_string() }])
    );
}
