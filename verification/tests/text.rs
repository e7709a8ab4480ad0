use test_db::endpoint::{admin_url, database_url, ADMIN_DATABASE};
use test_db::statement::{create_database, drop_database, terminate_sessions};

#[test]
fn admin_database_is_postgres() {
    assert_eq!(ADMIN_DATABASE, "postgres");
}

#[test]
fn admin_url_appends_the_system_database() {
    assert_eq!(
        admin_url("postgres://brook@localhost:5432"),
        "postgres://brook@localhost:5432/postgres"
    );
    assert_eq!(admin_url(""), "/postgres");
}

#[test]
fn database_url_appends_the_name() {
    assert_eq!(
        database_url("postgres://brook@localhost:5432", "test_db_x"),
        "postgres://brook@localhost:5432/test_db_x"
    );
    assert_eq!(database_url("", ""), "/");
}

#[test]
fn database_urls_on_one_server_differ_with_the_names() {
    let server = "postgres://localhost";
    assert_ne!(database_url(server, "test_db_a"), database_url(server, "test_db_b"));
}

#[test]
fn create_statement_quotes_the_name() {
    assert_eq!(create_database("test_db_x"), "CREATE DATABASE \"test_db_x\"");
    assert_eq!(create_database(""), "CREATE DATABASE \"\"");
}

#[test]
fn drop_statement_quotes_the_name() {
    assert_eq!(drop_database("test_db_x"), "DROP DATABASE \"test_db_x\"");
}

#[test]
fn terminate_statement_spares_the_own_session() {
    assert_eq!(
        terminate_sessions("test_db_x"),
        "SELECT pg_terminate_backend(pid) FROM pg_stat_activity WHERE pid <> pg_backend_pid() AND datname = 'test_db_x'"
    );
}
