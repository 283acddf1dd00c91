use sandbox_manager::{
    start_sandbox, Error, Linux, Namespace, NamespaceKind, RuntimeSpec, SetupOp, WorkerStep,
};

fn spec_with(namespaces: Vec<Namespace>) -> RuntimeSpec {
    RuntimeSpec { linux: Some(Linux { namespaces: Some(namespaces) }), annotations: None }
}

fn network(path: Option<&str>) -> Namespace {
    Namespace { kind: NamespaceKind::Network, path: path.map(|p| p.to_string()) }
}

/// Runs a worker whose operations all succeed and lists what it performed.
fn run_to_report(first: SetupOp) -> (Vec<SetupOp>, Result<(), Error>) {
    let mut performed = vec![first.clone()];
    let mut op = first;
    loop {
        match op.resume(Ok(())) {
            WorkerStep::Perform(next) => {
                performed.push(next.clone());
                op = next;
            }
            WorkerStep::Report(report) => return (performed, report),
        }
    }
}

#[test]
fn worker_without_namespaces_only_listens() {
    let first = start_sandbox(&RuntimeSpec { linux: None, annotations: None });
    assert_eq!(first, SetupOp::StartListener);
    assert_eq!(run_to_report(first), (vec![SetupOp::StartListener], Ok(())));
}

#[test]
fn worker_joins_and_does_not_unshare() {
    let first = start_sandbox(&spec_with(vec![network(Some("/var/run/netns/foo"))]));
    let (performed, report) = run_to_report(first);
    assert_eq!(
        performed,
        vec![
            SetupOp::OpenNamespace("/var/run/netns/foo".to_string()),
            SetupOp::JoinNamespace,
            SetupOp::StartListener,
        ]
    );
    assert!(!performed.contains(&SetupOp::CreateNamespace));
    assert_eq!(report, Ok(()));
}

#[test]
fn worker_unshares_and_opens_nothing() {
    let first = start_sandbox(&spec_with(vec![network(None)]));
    let (performed, report) = run_to_report(first);
    assert_eq!(performed, vec![SetupOp::CreateNamespace, SetupOp::StartListener]);
    assert_eq!(report, Ok(()));
}

#[test]
fn worker_acts_on_the_first_network_entry_only() {
    let first = start_sandbox(&spec_with(vec![
        network(None),
        network(Some("/var/run/netns/foo")),
        network(None),
    ]));
    let (performed, _) = run_to_report(first);
    assert_eq!(performed, vec![SetupOp::CreateNamespace, SetupOp::StartListener]);
}

#[test]
fn failed_open_is_reported_at_once() {
    let step = SetupOp::OpenNamespace("/var/run/netns/foo".to_string())
        .resume(Err("No such file or directory (os error 2)".to_string()));
    assert_eq!(
        step,
        WorkerStep::Report(Err(Error::Others(
            "could not open network namespace: No such file or directory (os error 2)".to_string()
        )))
    );
}

#[test]
fn failed_join_is_reported_at_once() {
    assert_eq!(
        SetupOp::JoinNamespace.resume(Err("EPERM".to_string())),
        WorkerStep::Report(Err(Error::Others("error setting network namespace: EPERM".to_string())))
    );
}

#[test]
fn failed_unshare_is_reported_at_once() {
    assert_eq!(
        SetupOp::CreateNamespace.resume(Err("EPERM".to_string())),
        WorkerStep::Report(Err(Error::Others(
            "error unsharing network namespace: EPERM".to_string()
        )))
    );
}

#[test]
fn failed_listener_is_reported() {
    assert_eq!(
        SetupOp::StartListener.resume(Err("address in use".to_string())),
        WorkerStep::Report(Err(Error::Others("could not start listener: address in use".to_string())))
    );
}

#[test]
fn failure_with_an_empty_cause_keeps_the_context() {
    assert_eq!(
        SetupOp::StartListener.resume(Err(String::new())),
        WorkerStep::Report(Err(Error::Others("could not start listener: ".to_string())))
    );
}

#[test]
fn each_operation_has_one_successor() {
    assert_eq!(
        SetupOp::OpenNamespace("p".to_string()).resume(Ok(())),
        WorkerStep::Perform(SetupOp::JoinNamespace)
    );
    assert_eq!(SetupOp::JoinNamespace.resume(Ok(())), WorkerStep::Perform(SetupOp::StartListener));
    assert_eq!(SetupOp::CreateNamespace.resume(Ok(())), WorkerStep::Perform(SetupOp::StartListener));
    assert_eq!(SetupOp::StartListener.resume(Ok(())), WorkerStep::Report(Ok(())));
}
