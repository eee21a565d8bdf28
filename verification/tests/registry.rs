use prisma_engine::backend::{
    CommitTransactionOutcome, ConnectOutcome, ConnectorError, CoreError, QueryOutcome,
    ReparseOutcome, StartTransactionOutcome,
};
use prisma_engine::engine::connect::{connect, connect_plan};
use prisma_engine::engine::connected_engine;
use prisma_engine::engine::create::{create_engine, EngineCreateResult};
use prisma_engine::engine::disconnect::{disconnect, disconnect_plan};
use prisma_engine::engine::instance::{capacity, insert, Registry};
use prisma_engine::engine::query::query;
use prisma_engine::engine::state::{Engine, Inner};
use prisma_engine::engine::transaction::{commit_transaction, start_transaction};
use prisma_engine::error::PrismaError;
use prisma_engine::schema::{Configuration, Datasource, Diagnostics, ValidatedSchema};
use std::sync::Arc;

type TestRegistry = Registry<String, String, u32>;

const USER_MODEL: &str = "model User { id Int @id }";

fn text(s: &str) -> String {
    s.to_string()
}

fn datasource(name: &str, url: Option<&str>) -> Datasource {
    Datasource {
        name: text(name),
        provider: text("postgresql"),
        url: url.map(text),
        url_from_env_var: None,
    }
}

fn schema_with(datasources: Vec<Datasource>) -> ValidatedSchema<String> {
    ValidatedSchema {
        ast: Arc::new(text("ast")),
        configuration: Configuration { datasources },
        diagnostics: Diagnostics { errors: vec![], warnings: vec![] },
    }
}

fn create(registry: &mut TestRegistry, url: &str) -> i64 {
    let schema = schema_with(vec![datasource("db", None)]);
    match create_engine(registry, text(USER_MODEL), text(url), schema) {
        EngineCreateResult::Success(id) => id,
        EngineCreateResult::Failure(error) => panic!("no engine: {:?}", error),
    }
}

fn ready(executor: u32) -> ConnectOutcome<String, u32> {
    ConnectOutcome::Connected { query_schema: Arc::new(text("query schema")), executor }
}

fn reparsed(url: &str) -> ReparseOutcome {
    ReparseOutcome::Parsed {
        configuration: Configuration { datasources: vec![datasource("db", Some(url))] },
        diagnostics: Diagnostics { errors: vec![], warnings: vec![] },
    }
}

fn not_found() -> PrismaError {
    PrismaError::Connector(text("Engine not found"))
}

fn is_connected(registry: &TestRegistry, id: i64) -> bool {
    matches!(registry.get(id).unwrap().inner(), Inner::Connected(_))
}

#[test]
fn a_new_registry_is_empty() {
    let registry = TestRegistry::new();
    assert_eq!(registry.len(), 0);
    assert!(!registry.is_full());
    assert!(registry.get(0).is_none());
}

#[test]
fn capacity_is_a_thousandth_of_the_address_space() {
    assert_eq!(capacity(), usize::MAX / 1000);
}

#[test]
fn handles_are_issued_from_zero_upwards() {
    let mut registry = TestRegistry::new();
    for expected in 0..40i64 {
        let id = create(&mut registry, "postgresql://localhost/db");
        assert_eq!(id, expected);
        assert_eq!(registry.len() as i64, expected + 1);
    }
    for id in 0..40i64 {
        assert!(registry.get(id).is_some());
    }
    assert!(registry.get(40).is_none());
}

#[test]
fn insert_returns_the_handle_of_the_engine() {
    let mut registry = TestRegistry::new();
    let first: Engine<String, String, u32> =
        Engine::new(text("first"), text("u1"), schema_with(vec![datasource("db", None)])).unwrap();
    let second: Engine<String, String, u32> =
        Engine::new(text("second"), text("u2"), schema_with(vec![datasource("db", None)])).unwrap();
    assert_eq!(insert(&mut registry, first), 0);
    assert_eq!(insert(&mut registry, second), 1);
    assert_eq!(registry.get(0).unwrap().connect_plan().unwrap().datamodel.raw, "first");
    assert_eq!(registry.get(1).unwrap().connect_plan().unwrap().datamodel.raw, "second");
    assert_eq!(registry.get(1).unwrap().connect_plan().unwrap().url, "u2");
}

#[test]
fn get_mut_reaches_the_engine_in_place() {
    let mut registry = TestRegistry::new();
    let a = create(&mut registry, "postgresql://a/db");
    let b = create(&mut registry, "postgresql://b/db");
    assert_eq!(registry.get_mut(b).unwrap().connect(ready(5)), Ok(()));
    assert!(is_connected(&registry, b));
    assert!(!is_connected(&registry, a));
    assert!(registry.get_mut(2).is_none());
    assert!(registry.get_mut(-1).is_none());
}

#[test]
fn create_engine_failure_leaves_the_registry_alone() {
    let mut registry = TestRegistry::new();
    create(&mut registry, "postgresql://localhost/db");
    let mut broken = schema_with(vec![datasource("db", None)]);
    broken.diagnostics.errors.push(text("Error parsing attribute"));
    let result = create_engine(&mut registry, text("model"), text("postgresql://h/db"), broken);
    assert_eq!(
        result,
        EngineCreateResult::Failure(PrismaError::Conversion(
            text("Error parsing attribute"),
            text("model")
        ))
    );
    assert_eq!(registry.len(), 1);
    assert_eq!(create(&mut registry, "postgresql://localhost/db"), 1);
}

#[test]
fn create_engine_with_two_datasources_is_a_configuration_error() {
    let mut registry = TestRegistry::new();
    let schema = schema_with(vec![datasource("one", None), datasource("two", None)]);
    let result = create_engine(&mut registry, text(USER_MODEL), text("postgresql://h/db"), schema);
    assert_eq!(
        result,
        EngineCreateResult::Failure(PrismaError::Configuration(text(
            "Exactly one datasource must be provided"
        )))
    );
    assert_eq!(registry.len(), 0);
}

#[test]
fn unreachable_host_then_query() {
    let mut registry = TestRegistry::new();
    let schema = schema_with(vec![datasource("db", None)]);
    let created = create_engine(
        &mut registry,
        text("model User { id Int @id }"),
        text("postgresql://bad-host/db"),
        schema,
    );
    assert_eq!(created, EngineCreateResult::Success(0));
    assert_eq!(connect_plan(&registry, 0).unwrap().url, "postgresql://bad-host/db");
    let unreachable = ConnectOutcome::Failed(ConnectorError {
        user_facing: Some(text("Can't reach database server at `bad-host`:`5432`")),
        message: text("failed to lookup address information"),
    });
    assert_eq!(
        connect(&mut registry, 0, unreachable),
        Err(PrismaError::Connector(text("Can't reach database server at `bad-host`:`5432`")))
    );
    assert_eq!(connected_engine(&registry, 0).err(), Some(PrismaError::NotConnected));
    assert_eq!(
        query(&registry, 0, QueryOutcome::Response(text("{}"))),
        Err(PrismaError::NotConnected)
    );
}

#[test]
fn connect_query_disconnect_query() {
    let mut registry = TestRegistry::new();
    let id = create(&mut registry, "postgresql://localhost:5432/db");
    assert_eq!(connect(&mut registry, id, ready(11)), Ok(()));
    let engine = connected_engine(&registry, id).unwrap();
    assert_eq!(*engine.executor(), 11);
    assert_eq!(**engine.query_schema(), "query schema");
    let response = "{\"data\":{\"findManyUser\":[{\"id\":1}]}}";
    assert_eq!(query(&registry, id, QueryOutcome::Response(text(response))), Ok(text(response)));
    assert_eq!(disconnect_plan(&registry, id), Ok(&text(USER_MODEL)));
    assert_eq!(disconnect(&mut registry, id, reparsed("postgresql://localhost:5432/db")), Ok(()));
    assert_eq!(
        query(&registry, id, QueryOutcome::Response(text(response))),
        Err(PrismaError::NotConnected)
    );
}

#[test]
fn start_and_commit_a_transaction() {
    let mut registry = TestRegistry::new();
    let id = create(&mut registry, "postgresql://localhost:5432/db");
    assert_eq!(connect(&mut registry, id, ready(1)), Ok(()));
    let tx_id = start_transaction(&registry, id, StartTransactionOutcome::Started(text("tx-1")));
    assert_eq!(tx_id, Ok(text("tx-1")));
    assert_eq!(
        commit_transaction(&registry, id, CommitTransactionOutcome::Committed),
        Ok(text("{}"))
    );
    let closed = CoreError {
        known: Some(text("{\"is_panic\":false,\"error_code\":\"2028\"}")),
        message: text("Transaction already closed"),
    };
    assert_eq!(
        commit_transaction(&registry, id, CommitTransactionOutcome::Failed(closed)),
        Ok(text("{\"is_panic\":false,\"error_code\":\"2028\"}"))
    );
}

#[test]
fn connect_on_a_connected_handle() {
    let mut registry = TestRegistry::new();
    let id = create(&mut registry, "postgresql://localhost/db");
    assert_eq!(connect(&mut registry, id, ready(1)), Ok(()));
    assert_eq!(connect_plan(&registry, id).err(), Some(PrismaError::AlreadyConnected));
    assert_eq!(connect(&mut registry, id, ready(2)), Err(PrismaError::AlreadyConnected));
    assert_eq!(*connected_engine(&registry, id).unwrap().executor(), 1);
}

#[test]
fn disconnect_on_a_waiting_handle() {
    let mut registry = TestRegistry::new();
    let id = create(&mut registry, "postgresql://localhost/db");
    assert_eq!(disconnect_plan(&registry, id), Err(PrismaError::NotConnected));
    assert_eq!(
        disconnect(&mut registry, id, reparsed("postgresql://other/db")),
        Err(PrismaError::NotConnected)
    );
    assert_eq!(connect_plan(&registry, id).unwrap().url, "postgresql://localhost/db");
}

#[test]
fn a_handle_is_not_used_up() {
    let mut registry = TestRegistry::new();
    let id = create(&mut registry, "postgresql://localhost/db");
    for round in 0..3u32 {
        assert_eq!(connect(&mut registry, id, ready(round)), Ok(()));
        assert_eq!(*connected_engine(&registry, id).unwrap().executor(), round);
        assert_eq!(disconnect(&mut registry, id, reparsed("postgresql://localhost/db")), Ok(()));
    }
    assert_eq!(registry.len(), 1);
}

#[test]
fn two_handles_do_not_affect_each_other() {
    let mut registry = TestRegistry::new();
    let a = create(&mut registry, "postgresql://localhost/db");
    let b = create(&mut registry, "postgresql://localhost/db");
    assert_ne!(a, b);
    assert_eq!(connect(&mut registry, a, ready(1)), Ok(()));
    assert!(is_connected(&registry, a));
    assert!(!is_connected(&registry, b));
    assert_eq!(query(&registry, a, QueryOutcome::Response(text("[]"))), Ok(text("[]")));
    assert_eq!(
        query(&registry, b, QueryOutcome::Response(text("[]"))),
        Err(PrismaError::NotConnected)
    );
    assert_eq!(connect(&mut registry, b, ready(2)), Ok(()));
    assert_eq!(disconnect(&mut registry, a, reparsed("postgresql://localhost/db")), Ok(()));
    assert!(!is_connected(&registry, a));
    assert!(is_connected(&registry, b));
    assert_eq!(*connected_engine(&registry, b).unwrap().executor(), 2);
    assert_eq!(query(&registry, b, QueryOutcome::Response(text("[]"))), Ok(text("[]")));
}

#[test]
fn a_fault_on_one_handle_leaves_all_engines_as_they_were() {
    let mut registry = TestRegistry::new();
    let a = create(&mut registry, "postgresql://a/db");
    let b = create(&mut registry, "postgresql://b/db");
    assert_eq!(connect(&mut registry, b, ready(7)), Ok(()));
    assert_eq!(
        connect(&mut registry, a, ConnectOutcome::Fault(Some(text("lost")))),
        Err(PrismaError::Core(text("PANIC: lost")))
    );
    assert_eq!(
        disconnect(&mut registry, b, ReparseOutcome::Fault(None)),
        Err(PrismaError::Core(text("PANIC: unknown panic")))
    );
    assert!(!is_connected(&registry, a));
    assert_eq!(connect_plan(&registry, a).unwrap().url, "postgresql://a/db");
    assert_eq!(*connected_engine(&registry, b).unwrap().executor(), 7);
}

#[test]
fn an_unknown_handle_is_not_found_by_any_operation() {
    let mut registry = TestRegistry::new();
    create(&mut registry, "postgresql://localhost/db");
    for id in [1i64, 2, 1000, -1, -1000, i64::MAX, i64::MIN] {
        assert!(registry.get(id).is_none());
        assert_eq!(connect_plan(&registry, id).err(), Some(not_found()));
        assert_eq!(connect(&mut registry, id, ready(1)), Err(not_found()));
        assert_eq!(disconnect_plan(&registry, id), Err(not_found()));
        assert_eq!(disconnect(&mut registry, id, reparsed("u")), Err(not_found()));
        assert_eq!(connected_engine(&registry, id).err(), Some(not_found()));
        assert_eq!(query(&registry, id, QueryOutcome::Response(text("{}"))), Err(not_found()));
        assert_eq!(
            start_transaction(&registry, id, StartTransactionOutcome::Started(text("t"))),
            Err(not_found())
        );
        assert_eq!(
            commit_transaction(&registry, id, CommitTransactionOutcome::Committed),
            Err(not_found())
        );
    }
    assert_eq!(registry.len(), 1);
    assert!(!is_connected(&registry, 0));
}

#[test]
fn a_negative_handle_does_not_reach_the_engine_of_its_absolute_value() {
    let mut registry = TestRegistry::new();
    create(&mut registry, "postgresql://localhost/db");
    create(&mut registry, "postgresql://localhost/db");
    assert_eq!(connect(&mut registry, -1, ready(1)), Err(not_found()));
    assert!(!is_connected(&registry, 1));
}

#[test]
fn an_empty_registry_knows_no_handle() {
    let mut registry = TestRegistry::new();
    assert_eq!(connect(&mut registry, 0, ready(1)), Err(not_found()));
    assert_eq!(query(&registry, 0, QueryOutcome::Fault(None)), Err(not_found()));
}
