use bookstore_testbed::dbtools::{
    connect_with_dbname, create_database_query, drop_database_query, ephemeral_db_name,
    generate_db_name,
};
use std::collections::HashMap;

#[test]
fn ephemeral_db_name_folds_hyphens() {
    let name = ephemeral_db_name(
        "book_registering_success",
        "123e4567-e89b-42d3-a456-426614174000",
    );
    assert_eq!(
        name,
        "book_registering_success_123e4567_e89b_42d3_a456_426614174000"
    );
}

#[test]
fn ephemeral_db_name_folds_hyphens_in_test_name() {
    let name = ephemeral_db_name("my-test", "ab");
    assert_eq!(name, "my_test_ab");
}

#[test]
fn generated_db_name_has_token_shape() {
    let name = generate_db_name("mytest");
    assert!(name.starts_with("mytest_"));
    assert_eq!(name.len(), "mytest".len() + 1 + 36);
    assert!(!name.contains('-'));
    let suffix = &name["mytest_".len()..];
    for (i, c) in suffix.chars().enumerate() {
        if i == 8 || i == 13 || i == 18 || i == 23 {
            assert_eq!(c, '_');
        } else {
            assert!(c.is_ascii_hexdigit() && !c.is_ascii_uppercase());
        }
    }
}

#[test]
fn generated_db_names_are_unique_for_one_test_name() {
    let a = generate_db_name("book_registering_success");
    let b = generate_db_name("book_registering_success");
    assert_ne!(a, b);
}

#[test]
fn generated_db_names_are_unique_across_test_names() {
    let a = generate_db_name("alpha");
    let b = generate_db_name("alpha");
    let c = generate_db_name("beta");
    assert_ne!(a, b);
    assert_ne!(a, c);
    assert_ne!(b, c);
}

#[test]
fn generated_db_name_never_names_admin_database() {
    let name = generate_db_name("postgres");
    assert_ne!(name, "postgres");
}

#[test]
fn connect_with_dbname_joins_url_and_database() {
    let url = connect_with_dbname("postgres://root@localhost:5433", "postgres");
    assert_eq!(url, "postgres://root@localhost:5433/postgres");
}

#[test]
fn create_database_query_is_exact() {
    assert_eq!(create_database_query("mytest_abc"), "CREATE DATABASE mytest_abc");
}

#[test]
fn drop_database_query_is_exact() {
    assert_eq!(drop_database_query("mytest_abc"), "DROP DATABASE mytest_abc");
}

#[test]
fn writes_under_distinct_databases_stay_isolated() {
    let db_a = generate_db_name("conflict_test");
    let db_b = generate_db_name("conflict_test");
    let mut stores: HashMap<String, Vec<(String, String)>> = HashMap::new();
    stores.insert(db_a.clone(), Vec::new());
    stores.insert(db_b.clone(), Vec::new());
    stores
        .get_mut(&db_a)
        .unwrap()
        .push(("X".to_string(), "first writer".to_string()));
    assert!(stores.get(&db_b).unwrap().is_empty());
    stores
        .get_mut(&db_b)
        .unwrap()
        .push(("X".to_string(), "second writer".to_string()));
    assert_eq!(stores.get(&db_a).unwrap().len(), 1);
    assert_eq!(stores.get(&db_a).unwrap()[0].1, "first writer");
    assert_eq!(stores.get(&db_b).unwrap()[0].1, "second writer");
}
