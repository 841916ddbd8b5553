use pessoas::config::{Setting, StoreSettings, LISTEN_PORT, POOL_MAX_SIZE};
use pessoas::startup::{advance, Order, Progress, Stage};

#[test]
fn options_fall_back_to_the_local_store() {
    let settings = StoreSettings::from_environment(None, None, None, None);
    assert_eq!(settings.host, "localhost");
    assert_eq!(settings.user, "postgres");
    assert_eq!(settings.dbname, "postgres");
    assert_eq!(settings.password, "password");
}

#[test]
fn options_take_what_the_environment_holds() {
    let settings = StoreSettings::from_environment(
        Some("db".to_string()),
        None,
        Some("rinha".to_string()),
        Some(String::new()),
    );
    assert_eq!(settings.host, "db");
    assert_eq!(settings.user, "postgres");
    assert_eq!(settings.dbname, "rinha");
    assert_eq!(settings.password, "");
}

#[test]
fn each_option_has_its_variable() {
    assert_eq!(Setting::Host.variable(), "DB_HOST");
    assert_eq!(Setting::User.variable(), "DB_USER");
    assert_eq!(Setting::Database.variable(), "DB_NAME");
    assert_eq!(Setting::Password.variable(), "DB_PASS");
    assert_eq!(Setting::Host.resolve(Some("h".to_string())), "h");
    assert_eq!(Setting::Host.resolve(None), "localhost");
}

#[test]
fn sizes_are_fixed() {
    assert_eq!(POOL_MAX_SIZE, 16);
    assert_eq!(LISTEN_PORT, 80);
}

#[test]
fn start_goes_pool_schema_socket() {
    let (stage, order) = advance(Stage::Down, Progress::Started);
    assert_eq!((stage, order), (Stage::Pooling, Order::BuildPool));
    let (stage, order) = advance(stage, Progress::Succeeded);
    assert_eq!((stage, order), (Stage::Migrating, Order::Migrate));
    let (stage, order) = advance(stage, Progress::Succeeded);
    assert_eq!((stage, order), (Stage::Serving, Order::Listen));
}

#[test]
fn a_failed_step_ends_the_start() {
    for stage in [Stage::Down, Stage::Pooling, Stage::Migrating, Stage::Serving, Stage::Halted] {
        assert_eq!(advance(stage, Progress::Failed), (Stage::Halted, Order::Abort));
    }
    assert_eq!(advance(Stage::Serving, Progress::Succeeded), (Stage::Halted, Order::Abort));
    assert_eq!(advance(Stage::Pooling, Progress::Started), (Stage::Halted, Order::Abort));
    assert_eq!(advance(Stage::Down, Progress::Succeeded), (Stage::Halted, Order::Abort));
}

#[test]
fn schema_creates_the_table_of_persons() {
    let changes = pessoas::schema::schema_changes();
    assert_eq!(changes.len(), 1);
    assert_eq!(changes[0].name, "V1__create_people");
    assert!(changes[0].sql.contains("create table people"));
    assert!(changes[0].sql.contains("apelido text not null unique"));
    assert!(changes[0].sql.contains("for_search text generated always as"));
}
