use feature_flags::db::{self, Flag, FlagValue, Store};
use feature_flags::http;

fn in_memory_db() -> Store {
    let mut store = db::open_in_memory_db().unwrap();

    db::initialize_db(&mut store).unwrap();

    store
}

#[test]
fn test_create_flag_created_then_conflict() {
    let mut conn = in_memory_db();

    let first = http::create_flag(
        &mut conn,
        Flag {
            name: "x".to_string(),
            value: true,
        },
    );
    assert_eq!(first.code, 201);

    let second = http::create_flag(
        &mut conn,
        Flag {
            name: "x".to_string(),
            value: true,
        },
    );
    assert_eq!(second.code, 400);
}

#[test]
fn test_create_flag_reply_message() {
    let mut conn = in_memory_db();

    let reply = http::create_flag(
        &mut conn,
        Flag {
            name: "test".to_string(),
            value: true,
        },
    );

    assert_eq!(reply.code, 201);
    assert_eq!(reply.message, "Flag test was created");
}

#[test]
fn test_update_flag_unknown_id() {
    let mut conn = in_memory_db();

    let status = http::update_flag(&mut conn, 999, FlagValue { value: true });

    assert_eq!(status, 404);
}

#[test]
fn test_update_flag_known_id() {
    let mut conn = in_memory_db();

    http::create_flag(
        &mut conn,
        Flag {
            name: "x".to_string(),
            value: false,
        },
    );

    // The first row of a fresh table takes id 1.
    let status = http::update_flag(&mut conn, 1, FlagValue { value: true });
    assert_eq!(status, 200);

    let flag = db::get_flag_by_name(&conn, "x".to_string()).unwrap();
    assert_eq!(flag.value, true);
}

#[test]
fn test_delete_flag_twice_is_no_content_both_times() {
    let mut conn = in_memory_db();

    http::create_flag(
        &mut conn,
        Flag {
            name: "x".to_string(),
            value: true,
        },
    );

    // The delete route does not check existence first: deleting the same id
    // again still answers 204.
    assert_eq!(http::delete_flag(&mut conn, 1), 204);
    assert_eq!(http::delete_flag(&mut conn, 1), 204);

    let flags = db::get_all_flags(&conn).unwrap();
    assert_eq!(flags.len(), 0);
}

#[test]
fn test_delete_flag_huge_id_is_an_execution_failure() {
    let mut conn = in_memory_db();

    assert_eq!(http::delete_flag(&mut conn, u64::MAX), 500);
}
