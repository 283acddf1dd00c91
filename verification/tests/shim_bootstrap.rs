use containerd_shim::publisher::RemotePublisher;
use containerd_shim::{Config, StartOpts};
use sandbox_manager::{
    Annotation, ConnectRequest, CreateRequest, Error, Handoff, Resolution, RuntimeSpec, Sandbox,
    Service, Shim,
};
use wasmtime::Engine;

struct Backend;

impl Sandbox for Backend {
    fn new(_namespace: String, _id: String, _engine: Engine, _publisher: RemotePublisher) -> Self {
        Backend
    }
}

fn shim() -> Shim {
    let mut config = Config::default();
    Shim::new("io.containerd.wasmtime.v1", "c1", "k8s.io", &mut config)
}

fn opts(id: &str) -> StartOpts {
    StartOpts {
        id: id.to_string(),
        ttrpc_address: "unix:///run/containerd/containerd.sock.ttrpc".to_string(),
        ..Default::default()
    }
}

fn annotated(pairs: &[(&str, &str)]) -> RuntimeSpec {
    RuntimeSpec {
        linux: None,
        annotations: Some(
            pairs
                .iter()
                .map(|(key, value)| Annotation { key: key.to_string(), value: value.to_string() })
                .collect(),
        ),
    }
}

/// Answers `create` as a manager does whose operations all succeed.
fn manager_create(service: &mut Service<Backend>, request: CreateRequest) -> Result<String, Error> {
    let pending = service.create(request)?;
    let (pending, ()) = pending.connected(Ok(()))?;
    let (pending, ()) = service.server_bound(pending, Ok(()))?;
    let pending = pending.loaded(Ok(RuntimeSpec { linux: None, annotations: None }))?;
    pending.spawned(Ok(()))?.received(Handoff::Started)
}

/// Runs a bootstrap against `service`.
fn bootstrap(service: &mut Service<Backend>, id: &str, directory: &str, spec: RuntimeSpec) -> Result<String, Error> {
    let pending = shim().start_shim(opts(id), Ok(directory.to_string()))?;
    let pending = pending.loaded(Ok(spec))?;
    let (pending, ()) = pending.dialed(Ok(()))?;
    let request = pending.request();
    match pending.replied(manager_create(service, request)) {
        Resolution::Resolved(address) => Ok(address),
        Resolution::Fallback(pending) => {
            let request = pending.request();
            pending.replied(service.connect(&request))
        }
    }
}

#[test]
fn shim_new_leaves_the_config_alone() {
    let mut config = Config::default();
    config.no_reaper = true;
    config.default_log_level = "debug".to_string();
    let _shim = Shim::new("io.containerd.wasmtime.v1", "c1", "k8s.io", &mut config);
    assert!(config.no_reaper);
    assert!(!config.no_setup_logger);
    assert!(!config.no_sub_reaper);
    assert_eq!(config.default_log_level, "debug");
}

#[test]
fn sandbox_id_prefers_the_annotation() {
    let spec = annotated(&[("io.kubernetes.cri.sandbox-id", "pod-7")]);
    assert_eq!(Shim::sandbox_id(&spec, "c1"), "pod-7");
}

#[test]
fn sandbox_id_falls_back_to_the_launch_id() {
    assert_eq!(Shim::sandbox_id(&annotated(&[]), "c1"), "c1");
    assert_eq!(Shim::sandbox_id(&RuntimeSpec { linux: None, annotations: None }, "c1"), "c1");
}

#[test]
fn sandbox_id_ignores_other_annotations() {
    let spec = annotated(&[
        ("io.kubernetes.cri.container-type", "container"),
        ("io.kubernetes.cri.sandbox-id-2", "other"),
        ("io.kubernetes.cri.sandbox-i", "other"),
    ]);
    assert_eq!(Shim::sandbox_id(&spec, "c1"), "c1");
}

#[test]
fn sandbox_id_finds_the_annotation_among_others() {
    let spec = annotated(&[
        ("io.kubernetes.cri.container-type", "container"),
        ("io.kubernetes.cri.sandbox-id", "pod-7"),
        ("io.kubernetes.cri.sandbox-name", "web"),
    ]);
    assert_eq!(Shim::sandbox_id(&spec, "c1"), "pod-7");
}

#[test]
fn sandbox_id_may_be_an_empty_annotation() {
    let spec = annotated(&[("io.kubernetes.cri.sandbox-id", "")]);
    assert_eq!(Shim::sandbox_id(&spec, "c1"), "");
}

#[test]
fn annotation_lookup_gives_the_value() {
    let spec = annotated(&[("a", "1"), ("b", "2")]);
    assert_eq!(spec.annotation("a"), Some("1"));
    assert_eq!(spec.annotation("b"), Some("2"));
    assert_eq!(spec.annotation("c"), None);
    assert_eq!(RuntimeSpec { linux: None, annotations: None }.annotation("a"), None);
}

#[test]
fn unresolved_working_directory_ends_the_bootstrap() {
    let begun = shim().start_shim(opts("c1"), Err("No such file or directory".to_string()));
    assert_eq!(begun.err(), Some(Error::Others("No such file or directory".to_string())));
}

#[test]
fn unloadable_descriptor_is_invalid_argument() {
    let pending = shim().start_shim(opts("c1"), Ok("/run/s1".to_string())).ok().unwrap();
    assert_eq!(pending.config_path(), "/run/s1/config.json");
    let failed = pending.loaded(Err("expected value at line 1 column 1".to_string()));
    assert_eq!(
        failed.err(),
        Some(Error::InvalidArgument(
            "error loading runtime spec: expected value at line 1 column 1".to_string()
        ))
    );
}

#[test]
fn bootstrap_dials_the_fixed_manager_address() {
    let pending = shim().start_shim(opts("c1"), Ok("/run/s1".to_string())).ok().unwrap();
    let pending = pending.loaded(Ok(annotated(&[]))).ok().unwrap();
    assert_eq!(pending.address(), "unix:///run/io.containerd.wasmtime.v1/manager.sock");
    let failed = pending.dialed::<()>(Err("connection refused".to_string()));
    assert_eq!(failed.err(), Some(Error::Others("connection refused".to_string())));
}

#[test]
fn bootstrap_asks_to_create_its_sandbox() {
    let pending = shim().start_shim(opts("c1"), Ok("/run/s1".to_string())).ok().unwrap();
    let spec = annotated(&[("io.kubernetes.cri.sandbox-id", "pod-7")]);
    let pending = pending.loaded(Ok(spec)).ok().unwrap().dialed(Ok(())).ok().unwrap().0;
    assert_eq!(
        pending.request(),
        CreateRequest {
            id: "pod-7".to_string(),
            working_directory: "/run/s1".to_string(),
            ttrpc_address: "unix:///run/containerd/containerd.sock.ttrpc".to_string(),
            namespace: String::new(),
        }
    );
}

#[test]
fn created_sandbox_resolves_the_bootstrap() {
    let pending = shim().start_shim(opts("c1"), Ok("/run/s1".to_string())).ok().unwrap();
    let pending = pending.loaded(Ok(annotated(&[]))).ok().unwrap().dialed(Ok(())).ok().unwrap().0;
    match pending.replied(Ok("unix:///run/s1/shim.sock".to_string())) {
        Resolution::Resolved(address) => assert_eq!(address, "unix:///run/s1/shim.sock"),
        Resolution::Fallback(_) => panic!("create succeeded"),
    }
}

#[test]
fn any_create_failure_falls_back_to_connect() {
    for refusal in [
        Error::AlreadyExists("c1".to_string()),
        Error::InvalidArgument("could not load runtime spec: x".to_string()),
        Error::NotFound("c1".to_string()),
        Error::Others("transport".to_string()),
    ] {
        let pending = shim().start_shim(opts("c1"), Ok("/run/s1".to_string())).ok().unwrap();
        let pending = pending.loaded(Ok(annotated(&[]))).ok().unwrap().dialed(Ok(())).ok().unwrap().0;
        match pending.replied(Err(refusal)) {
            Resolution::Resolved(_) => panic!("create failed"),
            Resolution::Fallback(pending) => {
                assert_eq!(
                    pending.request(),
                    ConnectRequest {
                        id: "c1".to_string(),
                        ttrpc_address: "unix:///run/containerd/containerd.sock.ttrpc".to_string(),
                    }
                );
                assert_eq!(pending.replied(Ok("sock".to_string())), Ok("sock".to_string()));
            }
        }
    }
}

#[test]
fn connect_failure_is_final() {
    let pending = shim().start_shim(opts("c1"), Ok("/run/s1".to_string())).ok().unwrap();
    let pending = pending.loaded(Ok(annotated(&[]))).ok().unwrap().dialed(Ok(())).ok().unwrap().0;
    match pending.replied(Err(Error::Others("create failed".to_string()))) {
        Resolution::Resolved(_) => panic!("create failed"),
        Resolution::Fallback(pending) => assert_eq!(
            pending.replied(Err(Error::NotFound("c1".to_string()))),
            Err(Error::NotFound("c1".to_string()))
        ),
    }
}

#[test]
fn bootstrap_of_a_registered_sandbox_connects() {
    let mut service = Service::<Backend>::new(Engine::default());
    let existing = manager_create(
        &mut service,
        CreateRequest {
            id: "sb2".to_string(),
            working_directory: "/run/s2".to_string(),
            ttrpc_address: "unix:///run/containerd/containerd.sock.ttrpc".to_string(),
            namespace: "k8s.io".to_string(),
        },
    );
    assert_eq!(existing, Ok("unix:///run/s2/shim.sock".to_string()));
    let resolved = bootstrap(&mut service, "sb2", "/run/elsewhere", annotated(&[]));
    assert_eq!(resolved, Ok("unix:///run/s2/shim.sock".to_string()));
    assert_eq!(service.len(), 1);
}

#[test]
fn bootstrap_of_a_new_sandbox_creates_it() {
    let mut service = Service::<Backend>::new(Engine::default());
    let resolved = bootstrap(&mut service, "c1", "/run/s1", annotated(&[]));
    assert_eq!(resolved, Ok("unix:///run/s1/shim.sock".to_string()));
    assert_eq!(service.len(), 1);
}

#[test]
fn containers_of_one_group_share_a_sandbox() {
    let mut service = Service::<Backend>::new(Engine::default());
    let group = [("io.kubernetes.cri.sandbox-id", "pod-7")];
    let first = bootstrap(&mut service, "c1", "/run/c1", annotated(&group));
    let second = bootstrap(&mut service, "c2", "/run/c2", annotated(&group));
    assert_eq!(first, Ok("unix:///run/c1/shim.sock".to_string()));
    assert_eq!(second, first);
    assert_eq!(service.len(), 1);
}
