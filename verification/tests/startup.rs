use mediator::error::MediatorError;
use mediator::net::{IpAddress, SocketAddress};
use mediator::startup::{
    start_error, Failure, Outcome, Plan, StartError, Startup, Step, Task, Turn,
};

fn addr() -> SocketAddress {
    SocketAddress { ip: IpAddress::V4(0x7f00_0001), port: 7037, scope_id: 0 }
}

fn text_of(step: Step, text: &str) -> MediatorError {
    match start_error::<()>(step, Failure::Text(text.to_string())) {
        StartError::Raised(e) => e,
        StartError::Passed(_) => panic!("passed"),
    }
}

fn refused() -> MediatorError {
    MediatorError::ConfigError(12, "NA".to_string(), "no".to_string())
}

#[test]
fn a_plan_is_carried_out_step_by_step() {
    let plan = Plan::one(Step::InitializeStore).followed(Plan::one(Step::InitMetrics));
    let mut startup: Startup<String> = Startup::new(plan);
    assert_eq!(startup.turn(), Turn::Perform(Step::InitializeStore));
    startup.report(Outcome::Done);
    assert_eq!(startup.turn(), Turn::Perform(Step::InitMetrics));
    startup.report(Outcome::Done);
    assert_eq!(startup.turn(), Turn::Ready);
    assert!(startup.finish().is_ok());
}

#[test]
fn a_failure_is_final() {
    let plan = Plan::one(Step::InitializeStore).followed(Plan::one(Step::InitMetrics));
    let mut startup: Startup<String> = Startup::new(plan);
    startup.report(Outcome::Failed(Failure::Passed("broken".to_string())));
    assert_eq!(startup.turn(), Turn::Stopped);
    assert!(matches!(startup.finish(), Err(StartError::Passed(e)) if e == "broken"));
}

#[test]
fn a_refusal_comes_after_the_steps_before_it() {
    let plan = Plan::one(Step::OpenDatabase)
        .followed(Plan::refused(refused()))
        .followed(Plan::one(Step::InitMetrics));
    assert_eq!(plan.steps, vec![Step::OpenDatabase]);
    let mut startup: Startup<String> = Startup::new(plan);
    assert_eq!(startup.turn(), Turn::Perform(Step::OpenDatabase));
    startup.report(Outcome::Done);
    assert_eq!(startup.turn(), Turn::Stopped);
    assert!(matches!(
        startup.finish(),
        Err(StartError::Raised(MediatorError::ConfigError(12, _, text))) if text == "no"
    ));
}

#[test]
fn plans_take_only_what_is_wanted() {
    assert!(Plan::when(false, Step::InitMetrics).steps.is_empty());
    assert_eq!(Plan::when(true, Step::InitMetrics).steps, vec![Step::InitMetrics]);
    assert!(Plan::empty().steps.is_empty() && Plan::empty().refusal.is_none());
}

#[test]
fn failures_are_worded() {
    let cases = vec![
        (Step::Bind(addr()), "Failed to bind 127.0.0.1:7037: in use"),
        (Step::SetNonblocking, "Failed to set listener nonblocking: in use"),
        (Step::ReadBoundAddress, "Failed to read bound listener address: in use"),
        (Step::ServeListener { tls: false }, "Failed to wrap TCP listener: in use"),
        (Step::ServeListener { tls: true }, "Failed to wrap TCP listener with TLS: in use"),
    ];
    for (step, expected) in cases {
        match text_of(step, "in use") {
            MediatorError::InternalError(code, session, text) => {
                assert_eq!((code, session.as_str(), text.as_str()), (17, "NA", expected));
            }
            other => panic!("{other:?}"),
        }
    }
    let cases = vec![
        (Step::LoadTls, "Invalid TLS certificate/key: bad"),
        (Step::CreateResolver, "Failed to create DID resolver: bad"),
    ];
    for (step, expected) in cases {
        match text_of(step, "bad") {
            MediatorError::ConfigError(code, session, text) => {
                assert_eq!((code, session.as_str(), text.as_str()), (12, "NA", expected));
            }
            other => panic!("{other:?}"),
        }
    }
}

#[test]
fn database_failures_are_worded() {
    assert!(matches!(
        text_of(Step::OpenDatabase, "refused"),
        MediatorError::DatabaseError(14, _, text) if text == "Error opening database: refused"
    ));
    assert!(matches!(
        start_error::<()>(Step::OpenDatabase, Failure::TimedOut),
        StartError::Raised(MediatorError::DatabaseError(14, _, text))
            if text == "Database connection timed out after 30 seconds"
    ));
}

#[test]
fn errors_of_this_library_are_raised_as_they_are() {
    assert!(matches!(
        start_error::<()>(Step::PublishEndpoints, Failure::Raised(refused())),
        StartError::Raised(MediatorError::ConfigError(12, _, text)) if text == "no"
    ));
}

#[test]
fn tasks_have_names_and_cadences() {
    let tasks = [
        (Task::Statistics, "statistics", false, None),
        (Task::ForwardingProcessor, "forwarding_processor", true, None),
        (Task::MessageExpirySweep, "message_expiry_sweep", false, Some(1)),
        (Task::SessionExpirySweep, "session_expiry_sweep", false, Some(300)),
        (Task::VtaRefresh, "vta_refresh", true, None),
        (Task::DidRateLimitSweep, "did_rate_limit_sweep", false, Some(300)),
    ];
    for (task, name, load_bearing, interval) in tasks {
        assert_eq!(task.name(), name);
        assert_eq!(task.load_bearing(), load_bearing);
        assert_eq!(task.interval_secs(), interval);
    }
}
