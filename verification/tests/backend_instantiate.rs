use std::time::{SystemTime, UNIX_EPOCH};

use containerd_shim::publisher::RemotePublisher;
use sandbox_manager::{CreateRequest, Sandbox, Service};
use ttrpc::Server;
use wasmtime::Engine;

/// A backend that keeps what it was built from.
struct Recorded {
    namespace: String,
    id: String,
    engine: Engine,
}

impl Sandbox for Recorded {
    fn new(namespace: String, id: String, engine: Engine, _publisher: RemotePublisher) -> Self {
        Recorded { namespace, id, engine }
    }
}

/// A server that listens at a path of its own, and the path.
fn listening(name: &str) -> (Server, String) {
    let stamp = SystemTime::now().duration_since(UNIX_EPOCH).unwrap().as_nanos();
    let path = format!("/tmp/sandbox_manager_{}_{}.sock", name, stamp);
    let server = Server::new().bind(&format!("unix://{}", path)).unwrap();
    (server, path)
}

fn request(id: &str, namespace: &str, ttrpc_address: &str) -> CreateRequest {
    CreateRequest {
        id: id.to_string(),
        working_directory: "/run/s1".to_string(),
        ttrpc_address: ttrpc_address.to_string(),
        namespace: namespace.to_string(),
    }
}

#[test]
fn backend_is_built_from_the_request() {
    let (_server, path) = listening("request");
    let service = Service::<Recorded>::new(Engine::default());
    let pending = service.create(request("sb1", "k8s.io", &path)).ok().unwrap();
    let publisher = RemotePublisher::new(pending.address()).map_err(|err| err.to_string());
    let (pending, publisher) = pending.connected(publisher).ok().unwrap();
    let backend = service.instantiate(&pending, publisher);
    assert_eq!(backend.namespace, "k8s.io");
    assert_eq!(backend.id, "sb1");
}

#[test]
fn backends_share_the_engine_of_the_service() {
    let (_server, path) = listening("engine");
    let engine = Engine::default();
    let service = Service::<Recorded>::new(engine.clone());
    let mut backends = Vec::new();
    for id in ["sb1", "sb2"] {
        let pending = service.create(request(id, "k8s.io", &path)).ok().unwrap();
        let publisher = RemotePublisher::new(pending.address()).map_err(|err| err.to_string());
        let (pending, publisher) = pending.connected(publisher).ok().unwrap();
        backends.push(service.instantiate(&pending, publisher));
    }
    assert!(Engine::same(&backends[0].engine, &engine));
    assert!(Engine::same(&backends[1].engine, &engine));
    assert!(!Engine::same(&backends[0].engine, &Engine::default()));
}

#[test]
fn unreachable_publisher_address_ends_create() {
    let service = Service::<Recorded>::new(Engine::default());
    let pending = service
        .create(request("sb1", "k8s.io", "/tmp/sandbox_manager_no_such.sock"))
        .ok()
        .unwrap();
    let publisher = RemotePublisher::new(pending.address()).map_err(|err| err.to_string());
    assert!(publisher.is_err());
    let failed = pending.connected(publisher);
    assert!(matches!(failed, Err(sandbox_manager::Error::Others(_))));
}
