use user_service::ApiError;
use user_service::ConfigError;
use user_service::DbRun;
use user_service::NewUser;
use user_service::OffloadFault;
use user_service::PoolFault;
use user_service::QueryError;
use user_service::ReplyBody;
use user_service::UserTable;
use user_service::create_user;
use user_service::database_url_from_env;
use user_service::delete_reply;
use user_service::delete_user;
use user_service::get_user;
use user_service::update_user;
use user_service::user_reply;

fn payload(username: &str, email: &str) -> NewUser {
    NewUser { username: username.to_string(), email: email.to_string() }
}

#[test]
fn round_trip_create_then_read() {
    let mut t = UserTable::new();
    let created = t.create(payload("alice", "a@x.com"), 1_700_000_000_000_000);
    assert_eq!(created.username, "alice");
    assert_eq!(created.email, "a@x.com");
    assert_eq!(created.created_at, 1_700_000_000_000_000);
    let read = t.read_by_id(created.id).expect("row just created must be readable");
    assert_eq!(read.id, created.id);
    assert_eq!(read.username, "alice");
    assert_eq!(read.email, "a@x.com");
    assert_eq!(read.created_at, 1_700_000_000_000_000);
}

#[test]
fn update_fully_overwrites() {
    let mut t = UserTable::new();
    let created = t.create(payload("alice", "a@x.com"), 10);
    let updated = t.update_by_id(created.id, payload("bob", "b@x.com")).expect("row exists");
    assert_eq!(updated.username, "bob");
    assert_eq!(updated.email, "b@x.com");
    assert_eq!(updated.id, created.id);
    assert_eq!(updated.created_at, 10);
    let read = t.read_by_id(created.id).expect("row still exists");
    assert_eq!(read.username, "bob");
    assert_eq!(read.email, "b@x.com");
    assert_eq!(read.created_at, 10);
}

#[test]
fn update_missing_row_is_not_found() {
    let mut t = UserTable::new();
    match t.update_by_id(99, payload("bob", "b@x.com")) {
        Err(QueryError::NotFound) => {}
        other => panic!("expected NotFound, got {:?}", other.is_ok()),
    }
}

#[test]
fn delete_then_delete_again() {
    let mut t = UserTable::new();
    let created = t.create(payload("alice", "a@x.com"), 10);
    let first = delete_user(&mut t, DbRun::Ran, created.id);
    assert_eq!(first.status, 200);
    match first.body {
        ReplyBody::Text(m) => assert_eq!(m, "User deleted successfully"),
        _ => panic!("expected a plain-text body"),
    }
    let second = delete_user(&mut t, DbRun::Ran, created.id);
    assert_eq!(second.status, 404);
    match second.body {
        ReplyBody::Text(m) => assert_eq!(m, "User not found"),
        _ => panic!("expected a plain-text body"),
    }
}

#[test]
fn delete_nonexistent_is_404() {
    let mut t = UserTable::new();
    let reply = delete_user(&mut t, DbRun::Ran, 12345);
    assert_ne!(reply.status, 200);
    assert_eq!(reply.status, 404);
}

#[test]
fn creates_assign_distinct_ids() {
    let mut t = UserTable::new();
    let mut seen: Vec<i32> = Vec::new();
    for i in 0..8 {
        let u = t.create(payload("u", &format!("u{}@x.com", i)), 0);
        assert!(!seen.contains(&u.id), "id {} assigned twice", u.id);
        seen.push(u.id);
    }
}

#[test]
fn deleted_ids_are_not_reused() {
    let mut t = UserTable::new();
    let first = t.create(payload("alice", "a@x.com"), 0);
    assert_eq!(t.delete_by_id(first.id), 1);
    let second = t.create(payload("bob", "b@x.com"), 0);
    assert_ne!(second.id, first.id);
}

#[test]
fn pool_exhaustion_answers_500() {
    let mut t = UserTable::new();
    let fault = PoolFault { message: "timed out waiting for connection".to_string() };
    let reply = create_user(&mut t, DbRun::PoolFailed(fault), payload("alice", "a@x.com"), 0);
    assert_eq!(reply.status, 500);
    match reply.body {
        ReplyBody::ErrorJson(m) => assert_eq!(
            m,
            "Internal Server Error: Pool error: timed out waiting for connection"
        ),
        _ => panic!("expected an error body"),
    }
    assert!(t.read_by_id(1).is_err(), "a failed request must not write");
}

#[test]
fn offload_failure_answers_500() {
    let t = UserTable::new();
    let fault = OffloadFault { message: "worker has shut down".to_string() };
    let reply = get_user(&t, DbRun::OffloadFailed(fault), 1);
    assert_eq!(reply.status, 500);
    match reply.body {
        ReplyBody::ErrorJson(m) => {
            assert_eq!(m, "Internal Server Error: Blocking error: worker has shut down")
        }
        _ => panic!("expected an error body"),
    }
}

#[test]
fn query_failure_answers_500() {
    let mut t = UserTable::new();
    let reply = update_user(
        &mut t,
        DbRun::QueryFailed("connection reset".to_string()),
        1,
        payload("bob", "b@x.com"),
    );
    assert_eq!(reply.status, 500);
    match reply.body {
        ReplyBody::ErrorJson(m) => {
            assert_eq!(m, "Internal Server Error: Database error: connection reset")
        }
        _ => panic!("expected an error body"),
    }
}

#[test]
fn read_of_missing_row_is_a_generic_500() {
    let t = UserTable::new();
    let reply = get_user(&t, DbRun::Ran, 7);
    assert_eq!(reply.status, 500);
    match reply.body {
        ReplyBody::ErrorJson(m) => {
            assert_eq!(m, "Internal Server Error: Database error: Record not found")
        }
        _ => panic!("expected an error body"),
    }
}

#[test]
fn update_of_missing_row_is_a_generic_500() {
    let mut t = UserTable::new();
    let reply = update_user(&mut t, DbRun::Ran, 7, payload("bob", "b@x.com"));
    assert_eq!(reply.status, 500);
    match reply.body {
        ReplyBody::ErrorJson(m) => {
            assert_eq!(m, "Internal Server Error: Database error: Record not found")
        }
        _ => panic!("expected an error body"),
    }
}

#[test]
fn create_handler_returns_persisted_row() {
    let mut t = UserTable::new();
    let reply = create_user(&mut t, DbRun::Ran, payload("alice", "a@x.com"), 99);
    assert_eq!(reply.status, 200);
    match reply.body {
        ReplyBody::UserJson(u) => {
            assert_eq!(u.id, 1);
            assert_eq!(u.username, "alice");
            assert_eq!(u.email, "a@x.com");
            assert_eq!(u.created_at, 99);
        }
        _ => panic!("expected a user body"),
    }
}

#[test]
fn round_trip_through_handlers() {
    let mut t = UserTable::new();
    let created = create_user(&mut t, DbRun::Ran, payload("alice", "a@x.com"), 5);
    assert_eq!(created.status, 200);
    let id = match created.body {
        ReplyBody::UserJson(u) => u.id,
        _ => panic!("expected a user body"),
    };
    let read = get_user(&t, DbRun::Ran, id);
    assert_eq!(read.status, 200);
    match read.body {
        ReplyBody::UserJson(u) => {
            assert_eq!(u.username, "alice");
            assert_eq!(u.email, "a@x.com");
            assert_eq!(u.created_at, 5);
        }
        _ => panic!("expected a user body"),
    }
    let updated = update_user(&mut t, DbRun::Ran, id, payload("bob", "b@x.com"));
    assert_eq!(updated.status, 200);
    let read_again = get_user(&t, DbRun::Ran, id);
    match read_again.body {
        ReplyBody::UserJson(u) => {
            assert_eq!(u.username, "bob");
            assert_eq!(u.email, "b@x.com");
            assert_eq!(u.created_at, 5);
        }
        _ => panic!("expected a user body"),
    }
}

#[test]
fn missing_config_refuses_startup() {
    assert_eq!(database_url_from_env(None), Err(ConfigError::MissingDatabaseUrl));
}

#[test]
fn present_config_is_used_as_given() {
    let url = "postgres://SECRET-REDACTED@localhost/app".to_string();
    assert_eq!(database_url_from_env(Some(url.clone())), Ok(url));
}

#[test]
fn error_messages_name_their_source() {
    let db = ApiError::DbError(QueryError::NotFound);
    assert_eq!(db.message(), "Database error: Record not found");
    let db2 = ApiError::DbError(QueryError::Failure("duplicate key".to_string()));
    assert_eq!(db2.message(), "Database error: duplicate key");
    let pool = ApiError::PoolError(PoolFault { message: "exhausted".to_string() });
    assert_eq!(pool.message(), "Pool error: exhausted");
    let blocking = ApiError::BlockingError(OffloadFault { message: "canceled".to_string() });
    assert_eq!(blocking.message(), "Blocking error: canceled");
}

#[test]
fn error_response_is_uniform() {
    let e = ApiError::PoolError(PoolFault { message: "exhausted".to_string() });
    let reply = e.error_response();
    assert_eq!(reply.status, 500);
    match reply.body {
        ReplyBody::ErrorJson(m) => assert_eq!(m, "Internal Server Error: Pool error: exhausted"),
        _ => panic!("expected an error body"),
    }
}

#[test]
fn reply_policies_match_the_route_table() {
    let ok = user_reply(Ok(user_service::User {
        id: 3,
        username: "c".to_string(),
        email: "c@x.com".to_string(),
        created_at: 5,
    }));
    assert_eq!(ok.status, 200);
    let gone = delete_reply(Ok(1));
    assert_eq!(gone.status, 200);
    let missing = delete_reply(Ok(0));
    assert_eq!(missing.status, 404);
    let failed = delete_reply(Err(ApiError::DbError(QueryError::Failure("x".to_string()))));
    assert_eq!(failed.status, 500);
}
