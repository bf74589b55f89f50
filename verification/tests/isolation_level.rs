use pg_datanymizer::orchestrator::{
    dump_isolation_level, resolve_plan, DumpOptions, DumpPlan, IndicatorChoice, IsolationLevel,
    SinkChoice, TransactionConfig,
};

fn level(dt: &str) -> Option<IsolationLevel> {
    let config = TransactionConfig::from_name(dt).unwrap();
    dump_isolation_level(config)
}

#[test]
fn default() {
    let level = dump_isolation_level(TransactionConfig::default());
    assert!(matches!(level, Some(IsolationLevel::ReadCommitted)));
}

#[test]
fn no_transaction() {
    let level = level("NoTransaction");
    assert!(level.is_none());
}

#[test]
fn repeatable_read() {
    let level = level("RepeatableRead");
    assert!(matches!(level, Some(IsolationLevel::RepeatableRead)));
}

#[test]
fn read_uncommitted() {
    let level = level("ReadUncommitted");
    assert!(matches!(level, Some(IsolationLevel::ReadUncommitted)));
}

#[test]
fn read_committed() {
    let level = level("ReadCommitted");
    assert!(matches!(level, Some(IsolationLevel::ReadCommitted)));
}

#[test]
fn serializable() {
    let level = level("Serializable");
    assert!(matches!(level, Some(IsolationLevel::Serializable)));
}

#[test]
fn unknown_transaction_name() {
    assert!(TransactionConfig::from_name("Chaos").is_none());
    assert!(TransactionConfig::from_name("").is_none());
}

fn options(file: Option<String>) -> DumpOptions {
    DumpOptions {
        file,
        dump_transaction: TransactionConfig::default(),
        pg_dump_location: "pg_dump".to_string(),
        pg_dump_args: vec!["--schema-only".to_string()],
        accept_invalid_hostnames: false,
        accept_invalid_certs: false,
    }
}

#[test]
fn file_sink_takes_console_indicator() {
    let plan: DumpPlan = resolve_plan(options(Some("dump.sql".to_string())));
    assert_eq!(
        plan.sink,
        SinkChoice::DestinationFile("dump.sql".to_string())
    );
    assert!(matches!(plan.indicator, IndicatorChoice::Console));
    assert!(matches!(
        plan.isolation_level,
        Some(IsolationLevel::ReadCommitted)
    ));
    assert_eq!(plan.pg_dump_location, "pg_dump".to_string());
    assert_eq!(plan.pg_dump_args, vec!["--schema-only".to_string()]);
}

#[test]
fn stdout_sink_takes_silent_indicator() {
    let plan = resolve_plan(options(None));
    assert_eq!(plan.sink, SinkChoice::Stdout);
    assert!(matches!(plan.indicator, IndicatorChoice::Silent));
}

#[test]
fn no_transaction_plan_requests_no_isolation() {
    let mut o = options(None);
    o.dump_transaction = TransactionConfig::NoTransaction;
    let plan = resolve_plan(o);
    assert!(plan.isolation_level.is_none());
}
