use ephemeral_db::naming::DatabaseName;
use ephemeral_db::options::{default_fields, resolve, ConnectFields, ConnectionDescriptor};
use ephemeral_db::pool::{open, open_admin, PoolPlan, MAX_CONNECTIONS};
use ephemeral_db::protocol::{Command, Fault, Reply};

fn scratch_name() -> DatabaseName {
    DatabaseName::from_suffix("abc1234").unwrap()
}

fn strict() -> String {
    "SET SESSION sql_mode=STRICT_ALL_TABLES; SET SESSION innodb_strict_mode=ON;".to_string()
}

#[test]
fn pool_is_bounded_at_ten_connections() {
    assert_eq!(MAX_CONNECTIONS, 10);
}

#[test]
fn admin_pool_selects_no_database() {
    let plan = open_admin(resolve(None, default_fields()));
    assert_eq!(
        plan,
        PoolPlan {
            target: ConnectionDescriptor::Fields(ConnectFields {
                host: "127.0.0.1".to_string(),
                port: 3306,
                username: "root".to_string(),
                database: None,
            }),
            max_connections: None,
            session: vec![strict()],
        }
    );
}

#[test]
fn scoped_pool_is_strict_then_selects_the_database() {
    let plan = open(resolve(None, default_fields()), &scratch_name(), 10);
    assert_eq!(
        plan,
        PoolPlan {
            target: ConnectionDescriptor::Fields(ConnectFields {
                host: "127.0.0.1".to_string(),
                port: 3306,
                username: "root".to_string(),
                database: Some("testing_temp_abc1234".to_string()),
            }),
            max_connections: Some(10),
            session: vec![strict(), "use `testing_temp_abc1234`".to_string()],
        }
    );
}

#[test]
fn scoped_pool_on_a_connection_string_still_selects_by_statement() {
    let uri = "mysql://root@127.0.0.1/elsewhere".to_string();
    let plan = open(resolve(Some(uri.clone()), default_fields()), &scratch_name(), 3);
    assert_eq!(plan.target, ConnectionDescriptor::Uri(uri));
    assert_eq!(plan.max_connections, Some(3));
    assert_eq!(plan.session, vec![strict(), "use `testing_temp_abc1234`".to_string()]);
}

#[test]
fn cloned_plan_is_equal() {
    let plan = open(resolve(None, default_fields()), &scratch_name(), 10);
    assert_eq!(plan.clone(), plan);
}

#[test]
fn new_connection_runs_each_session_statement_once_in_order() {
    let plan = open(resolve(None, default_fields()), &scratch_name(), 10);
    let mut setup = plan.connect();
    let mut ran: Vec<String> = Vec::new();
    loop {
        match setup.command() {
            Some(Command::Execute(sql)) => ran.push(sql),
            Some(other) => panic!("unexpected command {:?}", other),
            None => break,
        }
        setup = setup.step(&Reply::Done).unwrap();
    }
    assert_eq!(ran, vec![strict(), "use `testing_temp_abc1234`".to_string()]);
    assert_eq!(setup.command(), None);
}

#[test]
fn failed_first_session_statement_discards_the_connection() {
    let plan = open(resolve(None, default_fields()), &scratch_name(), 10);
    let setup = plan.connect();
    assert_eq!(setup.command(), Some(Command::Execute(strict())));
    let end = setup.step(&Reply::Failed(Fault::Rejected));
    assert_eq!(end.unwrap_err(), Fault::SessionSetup);
}

#[test]
fn failed_second_session_statement_discards_the_connection() {
    let plan = open(resolve(None, default_fields()), &scratch_name(), 10);
    let setup = plan.connect().step(&Reply::Done).unwrap();
    assert_eq!(setup.command(), Some(Command::Execute("use `testing_temp_abc1234`".to_string())));
    let end = setup.step(&Reply::Failed(Fault::Unreachable));
    assert_eq!(end.unwrap_err(), Fault::SessionSetup);
}

#[test]
fn ready_connection_stays_ready() {
    let plan = open_admin(resolve(None, default_fields()));
    let setup = plan.connect().step(&Reply::Done).unwrap();
    assert_eq!(setup.command(), None);
    let still = setup.step(&Reply::Failed(Fault::Rejected)).unwrap();
    assert_eq!(still.command(), None);
}

#[test]
fn plan_without_session_statements_is_ready_at_once() {
    let plan = PoolPlan {
        target: resolve(None, default_fields()),
        max_connections: None,
        session: Vec::new(),
    };
    assert_eq!(plan.connect().command(), None);
}
