use feature_flags::db::{self, Store};
use feature_flags::error::FeatureFlagError;

fn in_member_db() -> Store {
    let mut store = db::open_in_memory_db().unwrap();

    db::initialize_db(&mut store).unwrap();

    store
}

#[test]
fn test_delete_flag_failure() {
    let mut conn = in_member_db();

    let result = db::delete_flag_by_name(&mut conn, "test".to_string()).unwrap();

    assert_eq!(result, 0)
}

#[test]
fn test_update_flag_error() {
    let mut conn = in_member_db();

    let result = db::update_flag(&mut conn, "test".to_string(), 0);

    assert!(
        matches!(result, Err(FeatureFlagError::NotFoundError)),
        "expected a missing name to be reported as not found: {:?}",
        result
    )
}

#[test]
fn test_get_flag_by_name_error() {
    let conn = in_member_db();

    let result = db::get_flag_by_name(&conn, "test".to_string());

    assert!(
        matches!(result, Err(FeatureFlagError::NotFoundError)),
        "expected a missing name to be reported as not found: {:?}",
        result
    )
}

#[test]
fn test_updating_a_flag() {
    let flag_name = "test_updating".to_string();

    let mut conn = in_member_db();

    // Initialize the flag to True
    let _ = db::add_flag(&mut conn, flag_name.clone(), 1);

    let result = db::get_flag_by_name(&conn, flag_name.clone()).unwrap();
    assert_eq!(result.value, true);

    // Update the flag value to False
    let _ = db::update_flag(&mut conn, flag_name.clone(), 0).unwrap();

    let result = db::get_flag_by_name(&conn, flag_name.clone()).unwrap();
    assert_eq!(result.value, false);
}

#[test]
fn test_add_single_flag() {
    let flag_name = "test_flag".to_string();
    let flag_value_int = 1;
    let flag_value_bool = true;

    let mut conn = in_member_db();

    let _ = db::add_flag(&mut conn, flag_name.clone(), flag_value_int).unwrap();

    let result = db::get_flag_by_name(&conn, flag_name.clone()).unwrap();

    assert_eq!(result.name, flag_name);
    assert_eq!(result.value, flag_value_bool);
}

#[test]
fn db_test_delete_flag() {
    let flag_name = "delete_test".to_string();

    let mut conn = in_member_db();

    let _ = db::add_flag(&mut conn, flag_name.clone(), 1).unwrap();

    // Make sure the flag was added to the DB
    let flags = db::get_all_flags(&conn).unwrap();
    assert_eq!(1, flags.len());

    // Delete flag
    let _ = db::delete_flag_by_name(&mut conn, flag_name.clone()).unwrap();

    let flags = db::get_all_flags(&conn).unwrap();
    assert_eq!(0, flags.len());
}

#[test]
fn test_get_all_flags() {
    let mut conn = in_member_db();

    // Case: Zero Flags
    let result = db::get_all_flags(&conn).unwrap();
    assert_eq!(0, result.len());

    // Case: More than Zero flags
    let flags = vec![
        ("test_1".to_string(), 0),
        ("test_2".to_string(), 1),
        ("test_3".to_string(), 0),
    ];
    let expected_num_of_flags = flags.len();

    for (name, value) in flags {
        let _ = db::add_flag(&mut conn, name, value).unwrap();
    }

    let result = db::get_all_flags(&conn).unwrap();
    assert_eq!(expected_num_of_flags, result.len());
}

#[test]
fn test_get_all_flags_decodes_values_in_order() {
    let mut conn = in_member_db();

    for (name, value) in [("a", 0), ("b", 1), ("c", 0)] {
        db::add_flag(&mut conn, name.to_string(), value).unwrap();
    }

    let result = db::get_all_flags(&conn).unwrap();
    let names: Vec<&str> = result.iter().map(|f| f.name.as_str()).collect();
    let values: Vec<bool> = result.iter().map(|f| f.value).collect();
    assert_eq!(names, ["a", "b", "c"]);
    assert_eq!(values, [false, true, false]);
}

#[test]
fn test_create_conflict_keeps_first_value() {
    let mut conn = in_member_db();

    db::add_flag(&mut conn, "dup".to_string(), 1).unwrap();
    let second = db::add_flag(&mut conn, "dup".to_string(), 0);
    assert!(matches!(second, Err(FeatureFlagError::ConflictError)));

    // The first flag's value is untouched by the failed create.
    let flag = db::get_flag_by_name(&conn, "dup".to_string()).unwrap();
    assert_eq!(flag.value, true);
}

#[test]
fn test_delete_then_get_reports_not_found() {
    let mut conn = in_member_db();

    db::add_flag(&mut conn, "gone".to_string(), 1).unwrap();
    let deleted = db::delete_flag_by_name(&mut conn, "gone".to_string()).unwrap();
    assert_eq!(deleted, 1);

    let result = db::get_flag_by_name(&conn, "gone".to_string());
    assert!(matches!(result, Err(FeatureFlagError::NotFoundError)));
}

#[test]
fn test_missing_table_is_a_store_error() {
    // Without initialize_db there is no flags table at all.
    let mut conn = db::open_in_memory_db().unwrap();

    let result = db::add_flag(&mut conn, "x".to_string(), 1);
    assert!(matches!(result, Err(FeatureFlagError::StoreError)));
}

#[test]
fn test_stored_value_decodes_to_false_for_zero() {
    let mut conn = in_member_db();

    db::add_flag(&mut conn, "off".to_string(), 0).unwrap();
    let flag = db::get_flag_by_name(&conn, "off".to_string()).unwrap();
    assert_eq!(flag.value, false);
}

#[test]
fn test_add_flag_rejects_other_integers() {
    // The schema's CHECK admits only 0 and 1.
    let mut conn = in_member_db();

    let result = db::add_flag(&mut conn, "weird".to_string(), 5);
    assert!(matches!(result, Err(FeatureFlagError::StoreError)));
}
