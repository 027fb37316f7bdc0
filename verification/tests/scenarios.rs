use ephemeral_db::error::{GuardError, OperationError};
use ephemeral_db::guard::{DatabaseGuard, Progress, TeardownProgress};
use ephemeral_db::naming::DatabaseName;
use ephemeral_db::operation::Operation;
use ephemeral_db::pool::PoolPlan;
use ephemeral_db::protocol::{Command, Fault, Reply};
use ephemeral_db::transaction::{release, AbandonPolicy, OpenTransaction, TxState};

/// One database of the stand-in server: the rows of `foo`, once the table exists.
#[derive(Debug)]
struct Database {
    name: String,
    foo: Option<Vec<String>>,
}

/// One checked-out connection of the stand-in server.
#[derive(Debug)]
struct Connection {
    selected: Option<String>,
    strict: bool,
    pending: Option<Vec<String>>,
}

/// A server in memory that carries commands out as a real one would: statements run in
/// order on one connection, a transaction sees its own writes, a commit makes them lasting
/// and a connection given back with an open transaction loses them.
#[derive(Debug)]
struct Server {
    databases: Vec<Database>,
    pool: Option<PoolPlan>,
    connection: Option<Connection>,
    sessions_set_up: usize,
    closed_pools: usize,
}

impl Server {
    fn new() -> Server {
        Server { databases: Vec::new(), pool: None, connection: None, sessions_set_up: 0, closed_pools: 0 }
    }

    fn has_database(&self, name: &str) -> bool {
        self.databases.iter().any(|d| d.name == name)
    }

    fn rows(&self, name: &str) -> Option<Vec<String>> {
        self.databases.iter().find(|d| d.name == name).and_then(|d| d.foo.clone())
    }

    fn statement(&mut self, sql: &str) -> Reply {
        let connection = match self.connection.as_mut() {
            Some(c) => c,
            None => return Reply::Failed(Fault::Unreachable),
        };
        if sql == "SET SESSION sql_mode=STRICT_ALL_TABLES; SET SESSION innodb_strict_mode=ON;" {
            connection.strict = true;
            return Reply::Done;
        }
        if let Some(name) = sql.strip_prefix("CREATE DATABASE ") {
            if self.databases.iter().any(|d| d.name == name) {
                return Reply::Failed(Fault::Rejected);
            }
            self.databases.push(Database { name: name.to_string(), foo: None });
            return Reply::Done;
        }
        if let Some(rest) = sql.strip_prefix("use `") {
            let name = rest.strip_suffix('`').unwrap();
            if !self.databases.iter().any(|d| d.name == name) {
                return Reply::Failed(Fault::Rejected);
            }
            self.connection.as_mut().unwrap().selected = Some(name.to_string());
            return Reply::Done;
        }
        if let Some(rest) = sql.strip_prefix("DROP DATABASE IF EXISTS `") {
            let name = rest.strip_suffix('`').unwrap();
            self.databases.retain(|d| d.name != name);
            return Reply::Done;
        }
        if sql == "CREATE TABLE foo (a VARCHAR(255))" {
            let selected = connection.selected.clone();
            return match self.databases.iter_mut().find(|d| Some(&d.name) == selected.as_ref()) {
                Some(database) if database.foo.is_none() => {
                    database.foo = Some(Vec::new());
                    Reply::Done
                },
                _ => Reply::Failed(Fault::Rejected),
            };
        }
        Reply::Failed(Fault::Rejected)
    }

    fn acquire(&mut self) -> Reply {
        let plan = match &self.pool {
            Some(plan) => plan.clone(),
            None => return Reply::Failed(Fault::Unreachable),
        };
        if self.connection.is_some() {
            panic!("the stand-in server has one connection to give");
        }
        self.connection = Some(Connection { selected: None, strict: false, pending: None });
        let mut setup = plan.connect();
        while let Some(command) = setup.command() {
            let reply = match command {
                Command::Execute(sql) => self.statement(&sql),
                other => panic!("unexpected session command {:?}", other),
            };
            match setup.step(&reply) {
                Ok(next) => setup = next,
                Err(fault) => {
                    self.connection = None;
                    return Reply::Failed(fault);
                },
            }
        }
        self.sessions_set_up += 1;
        Reply::Done
    }

    fn table(&mut self) -> Option<&mut Vec<String>> {
        let selected = self.connection.as_ref()?.selected.clone()?;
        self.databases.iter_mut().find(|d| d.name == selected)?.foo.as_mut()
    }

    fn perform(&mut self, command: &Command) -> Reply {
        match command {
            Command::OpenPool(plan) => {
                self.pool = Some(plan.clone());
                self.connection = None;
                Reply::Done
            },
            Command::Acquire => self.acquire(),
            Command::Begin => match self.connection.as_mut() {
                Some(c) if c.pending.is_none() => {
                    c.pending = Some(Vec::new());
                    Reply::Done
                },
                _ => Reply::Failed(Fault::Rejected),
            },
            Command::Execute(sql) => self.statement(sql),
            Command::ExecuteBound(sql, value) => {
                assert_eq!(sql, "INSERT INTO foo (a) VALUES (?)");
                if self.table().is_none() {
                    return Reply::Failed(Fault::Rejected);
                }
                match self.connection.as_mut().unwrap().pending.as_mut() {
                    Some(pending) => pending.push(value.clone()),
                    None => self.table().unwrap().push(value.clone()),
                }
                Reply::Done
            },
            Command::FetchOptional(sql, value) => {
                assert_eq!(sql, "SELECT a FROM foo WHERE a = ?");
                let pending = self.connection.as_ref().and_then(|c| c.pending.clone()).unwrap_or_default();
                match self.table() {
                    None => Reply::Failed(Fault::Rejected),
                    Some(rows) => match rows.iter().chain(pending.iter()).find(|r| *r == value) {
                        Some(found) => Reply::Row(found.clone()),
                        None => Reply::Done,
                    },
                }
            },
            Command::Commit => {
                let pending = match self.connection.as_mut().and_then(|c| c.pending.take()) {
                    Some(pending) => pending,
                    None => return Reply::Failed(Fault::Rejected),
                };
                match self.table() {
                    Some(rows) => {
                        rows.extend(pending);
                        Reply::Done
                    },
                    None => Reply::Done,
                }
            },
            Command::Rollback => match self.connection.as_mut() {
                Some(c) => {
                    c.pending = None;
                    Reply::Done
                },
                None => Reply::Failed(Fault::Unreachable),
            },
            Command::ReleaseConnection => {
                self.connection = None;
                Reply::Done
            },
            Command::ReleasePool => {
                self.pool = None;
                self.connection = None;
                self.closed_pools += 1;
                Reply::Done
            },
        }
    }
}

fn set_up(server: &mut Server, suffix: &str) -> DatabaseGuard {
    let mut setup = DatabaseGuard::with_name(DatabaseName::from_suffix(suffix).unwrap(), None);
    loop {
        let reply = server.perform(&setup.command());
        match setup.step(&reply) {
            Progress::Next(next) => setup = next,
            Progress::Ready(guard) => return guard,
            Progress::Failed(error) => panic!("setup failed: {:?}", error),
        }
    }
}

fn tear_down(server: &mut Server, guard: DatabaseGuard) -> (usize, Result<(), GuardError>) {
    let mut teardown = guard.drop_async();
    let mut commands = 0;
    loop {
        let reply = server.perform(&teardown.command());
        commands += 1;
        match teardown.step(&reply) {
            TeardownProgress::Next(next) => teardown = next,
            TeardownProgress::Finished(result) => return (commands, result),
        }
    }
}

fn connect(server: &mut Server, guard: &DatabaseGuard) {
    assert_eq!(server.perform(&guard.conn()), Reply::Done);
}

fn some_transaction(server: &mut Server, early_return: bool) -> (Result<(), OperationError>, Option<TxState>) {
    let mut operation = Operation::start(early_return);
    while let Some(command) = operation.command() {
        let reply = server.perform(&command);
        operation = operation.step(&reply);
    }
    (operation.outcome().unwrap(), operation.transaction())
}

fn give_back(server: &mut Server, state: Option<TxState>, policy: AbandonPolicy) -> Result<(), OpenTransaction> {
    for command in release(state, policy)? {
        assert_eq!(server.perform(&command), Reply::Done);
    }
    Ok(())
}

fn count_sentinel(server: &mut Server, guard: &DatabaseGuard) -> usize {
    connect(server, guard);
    let rows = server.rows(guard.db_name().as_str()).unwrap();
    assert_eq!(server.perform(&Command::ReleaseConnection), Reply::Done);
    rows.iter().filter(|r| *r == "asdf").count()
}

#[test]
fn new_guard_has_an_empty_table() {
    let mut server = Server::new();
    let guard = set_up(&mut server, "abc1234");
    assert!(server.has_database("testing_temp_abc1234"));
    assert_eq!(server.rows("testing_temp_abc1234"), Some(Vec::new()));
    assert!(server.connection.is_none());
    assert_eq!(guard.db_name().as_str(), "testing_temp_abc1234");
}

#[test]
fn every_connection_of_the_guard_is_strict_and_selects_its_database() {
    let mut server = Server::new();
    let guard = set_up(&mut server, "abc1234");
    connect(&mut server, &guard);
    let connection = server.connection.as_ref().unwrap();
    assert!(connection.strict);
    assert_eq!(connection.selected, Some("testing_temp_abc1234".to_string()));
}

#[test]
fn test_transaction_commit() {
    let mut server = Server::new();
    let db = set_up(&mut server, "abc1234");
    connect(&mut server, &db);
    let (result, state) = some_transaction(&mut server, false);
    result.unwrap();
    assert_eq!(state, Some(TxState::Committed));
    give_back(&mut server, state, AbandonPolicy::FailFast).unwrap();
    assert_eq!(count_sentinel(&mut server, &db), 1);
    println!("end of test, cleanup");
    let (commands, result) = tear_down(&mut server, db);
    assert_eq!(result, Ok(()));
    assert!(commands <= 4);
    assert!(!server.has_database("testing_temp_abc1234"));
    println!("cleanup finished");
}

#[test]
fn test_transaction_return() {
    let mut server = Server::new();
    let db = set_up(&mut server, "abc1234");
    connect(&mut server, &db);
    let (result, state) = some_transaction(&mut server, true);
    assert_eq!(result.unwrap_err(), OperationError::NotFound);
    assert_eq!(state, Some(TxState::Abandoned));
    give_back(&mut server, state, AbandonPolicy::RollbackOnRelease).unwrap();
    assert_eq!(count_sentinel(&mut server, &db), 0);
    println!("end of test, cleanup");
    let (commands, result) = tear_down(&mut server, db);
    assert_eq!(result, Ok(()));
    assert!(commands <= 4);
    assert!(!server.has_database("testing_temp_abc1234"));
    println!("cleanup finished");
}

#[test]
fn abandoned_transaction_fails_fast_where_that_is_the_policy() {
    let mut server = Server::new();
    let db = set_up(&mut server, "abc1234");
    connect(&mut server, &db);
    let (result, state) = some_transaction(&mut server, true);
    assert_eq!(result, Err(OperationError::NotFound));
    assert_eq!(give_back(&mut server, state, AbandonPolicy::FailFast), Err(OpenTransaction));
    assert!(server.connection.is_some());
}

#[test]
fn write_that_is_not_committed_is_lost() {
    let mut server = Server::new();
    let db = set_up(&mut server, "abc1234");
    connect(&mut server, &db);
    let started = Operation::start(false);
    let reply = server.perform(&started.command().unwrap());
    let writing = started.step(&reply);
    let reply = server.perform(&writing.command().unwrap());
    let reading = writing.step(&reply);
    assert_eq!(server.perform(&reading.command().unwrap()), Reply::Row("asdf".to_string()));
    give_back(&mut server, reading.transaction(), AbandonPolicy::RollbackOnRelease).unwrap();
    assert_eq!(count_sentinel(&mut server, &db), 0);
}

#[test]
fn committed_rows_add_up_over_runs() {
    let mut server = Server::new();
    let db = set_up(&mut server, "abc1234");
    for expected in 1..4 {
        connect(&mut server, &db);
        let (result, state) = some_transaction(&mut server, false);
        assert_eq!(result, Ok(()));
        give_back(&mut server, state, AbandonPolicy::FailFast).unwrap();
        assert_eq!(count_sentinel(&mut server, &db), expected);
    }
    connect(&mut server, &db);
    let (result, state) = some_transaction(&mut server, true);
    assert_eq!(result, Ok(()));
    assert_eq!(state, Some(TxState::Committed));
}

#[test]
fn two_guards_do_not_see_each_other() {
    let mut server = Server::new();
    let first = set_up(&mut server, "abc1234");
    let second = set_up(&mut server, "xyz9876");
    let _ = server.perform(&Command::OpenPool(first.db().clone()));
    connect(&mut server, &first);
    let (result, state) = some_transaction(&mut server, false);
    assert_eq!(result, Ok(()));
    give_back(&mut server, state, AbandonPolicy::FailFast).unwrap();
    assert_eq!(server.rows("testing_temp_abc1234"), Some(vec!["asdf".to_string()]));
    assert_eq!(server.rows("testing_temp_xyz9876"), Some(Vec::new()));
    let _ = server.perform(&Command::OpenPool(second.db().clone()));
    connect(&mut server, &second);
    let (result, _) = some_transaction(&mut server, true);
    assert_eq!(result, Err(OperationError::NotFound));
}

#[test]
fn setup_fails_where_the_name_is_taken() {
    let mut server = Server::new();
    let _first = set_up(&mut server, "abc1234");
    let mut setup = DatabaseGuard::with_name(DatabaseName::from_suffix("abc1234").unwrap(), None);
    let error = loop {
        let reply = server.perform(&setup.command());
        match setup.step(&reply) {
            Progress::Next(next) => setup = next,
            Progress::Ready(_) => panic!("a second guard of one name"),
            Progress::Failed(error) => break error,
        }
    };
    assert_eq!(error, GuardError::Provisioning);
}

#[test]
fn teardown_closes_the_pool_and_drops_the_database() {
    let mut server = Server::new();
    let db = set_up(&mut server, "abc1234");
    let closed_before = server.closed_pools;
    let (commands, result) = tear_down(&mut server, db);
    assert_eq!((commands, result), (4, Ok(())));
    assert_eq!(server.closed_pools, closed_before + 1);
    assert!(server.pool.is_none());
    assert!(server.databases.is_empty());
}

#[test]
fn dropping_a_dropped_database_again_is_no_error() {
    let mut server = Server::new();
    let db = set_up(&mut server, "abc1234");
    let plan = db.db().clone();
    let statement = "DROP DATABASE IF EXISTS `testing_temp_abc1234`".to_string();
    assert_eq!(tear_down(&mut server, db).1, Ok(()));
    let _ = server.perform(&Command::OpenPool(PoolPlan { session: vec![plan.session[0].clone()], ..plan }));
    assert_eq!(server.perform(&Command::Acquire), Reply::Done);
    assert_eq!(server.perform(&Command::Execute(statement.clone())), Reply::Done);
    assert_eq!(server.perform(&Command::Execute(statement)), Reply::Done);
    assert!(!server.has_database("testing_temp_abc1234"));
}

#[test]
fn discarded_guard_leaves_its_database_on_the_server() {
    let mut server = Server::new();
    let db = set_up(&mut server, "abc1234");
    for command in db.discard() {
        let _ = server.perform(&command);
    }
    assert!(server.has_database("testing_temp_abc1234"));
}
