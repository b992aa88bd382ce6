use feature_flags::commands;
use feature_flags::db::{self, Store};

fn in_memory_db() -> Store {
    let mut store = db::open_in_memory_db().unwrap();

    db::initialize_db(&mut store).unwrap();

    store
}

#[test]
fn test_all_flags() {
    let mut conn = in_memory_db();

    // Case: Zero Flags
    let out = commands::all_flags_v2(&conn).unwrap();
    assert_eq!(out, "Done\n");

    // Case: More than Zero Flags
    let flags = vec![
        ("test_1".to_string(), 0),
        ("test_2".to_string(), 1),
        ("test_3".to_string(), 0),
    ];

    for (name, value) in flags {
        let _ = db::add_flag(&mut conn, name, value).unwrap();
    }

    let out = commands::all_flags_v2(&conn).unwrap();
    assert_eq!(
        out,
        "flag: test_1: false\nflag: test_2: true\nflag: test_3: false\nDone\n"
    );
}

#[test]
fn test_create_flag() {
    let mut conn = in_memory_db();

    let out = commands::create_flag(&mut conn, "test".to_string(), 0);

    assert_eq!(out, "Successfully added to the db\n");
}

#[test]
fn delete_flags_test_delete_flag() {
    let mut conn = in_memory_db();

    // add flag to db
    let _ = db::add_flag(&mut conn, "test".to_string(), 0);

    let out = commands::delete_flag(&mut conn, "test".to_string());

    assert_eq!(out, "1 row deleted\n");
}

#[test]
fn test_delete_flag_zero_rows_deleted() {
    let mut conn = in_memory_db();

    let out = commands::delete_flag(&mut conn, "test".to_string());

    assert_eq!(out, "0 row deleted\n");
}

#[test]
fn test_get_flag() {
    let mut conn = in_memory_db();

    // add flag to db
    let _ = db::add_flag(&mut conn, "test".to_string(), 0);

    let out = commands::get_flag(&conn, "test".to_string());

    assert_eq!(out, "Flag -- test: false\n");
}

#[test]
fn test_update_flag() {
    let mut conn = in_memory_db();

    // add flag to db
    let _ = db::add_flag(&mut conn, "test".to_string(), 0);

    let out = commands::update_flag(&mut conn, "test".to_string(), 1);

    assert_eq!(out, "Successfully updated the db\n");
}

#[test]
fn test_get_flag_missing_name() {
    let conn = in_memory_db();

    let out = commands::get_flag(&conn, "absent".to_string());

    assert_eq!(out, "No Flag Found\n");
}

#[test]
fn test_create_flag_conflict_line() {
    let mut conn = in_memory_db();

    let _ = commands::create_flag(&mut conn, "dup".to_string(), 1);
    let out = commands::create_flag(&mut conn, "dup".to_string(), 0);

    assert_eq!(out, "Failed to add to db: ConflictError");
}

#[test]
fn test_update_flag_missing_name_line() {
    let mut conn = in_memory_db();

    let out = commands::update_flag(&mut conn, "absent".to_string(), 1);

    assert_eq!(out, "Failed to add to the db: NotFoundError");
}

#[test]
fn test_valuate_value() {
    assert_eq!(commands::valuate_value("true".to_string()), Ok(1));
    assert_eq!(commands::valuate_value("false".to_string()), Ok(0));
    assert_eq!(commands::valuate_value("  TRUE\t".to_string()), Ok(1));
    assert_eq!(commands::valuate_value("False".to_string()), Ok(0));
    assert_eq!(
        commands::valuate_value("yes".to_string()),
        Err("Value must be 'true' or 'false'".to_string())
    );
    assert_eq!(
        commands::valuate_value("".to_string()),
        Err("Value must be 'true' or 'false'".to_string())
    );
    // "truex" and "tru" must not pass for "true".
    assert!(commands::valuate_value("truex".to_string()).is_err());
    assert!(commands::valuate_value("tru".to_string()).is_err());
}

#[test]
fn test_convert_bool_to_sqlite_bool() {
    assert_eq!(commands::convert_bool_to_sqlite_bool(true), 1);
    assert_eq!(commands::convert_bool_to_sqlite_bool(false), 0);
}
