//! The manager service: `create` registers a sandbox and brings up its task
//! server, `connect` looks a sandbox up.
//!
//! `create` is a chain of stages. Each stage names one operation for the
//! caller to perform (connect the publisher, bind the server, load the
//! descriptor, spawn the worker, wait for its report) and turns the outcome of
//! that operation into the next stage or into the error that ends the call.
//! The registry is read when the chain begins and written when the server is
//! bound; a caller that shares the service between threads holds it
//! exclusively from the one to the other, and no longer.

use vstd::prelude::*;
use std::marker::PhantomData;
use containerd_shim::publisher::RemotePublisher;
use wasmtime::Engine;
use crate::endpoint::{config_path, config_path_of, socket_path, socket_path_of, worker_name, worker_name_of};
use crate::error::{prefixed, Error, ErrorView};
use crate::netns::network_plan;
use crate::outside::share_engine;
use crate::registry::{keeps_entries, registration, resolution, Registry};
use crate::runtime_spec::RuntimeSpec;
use crate::worker::{first_op_of, start_sandbox, SetupOp};

verus! {

/// The task-serving backend of one sandbox. The manager builds one per
/// sandbox and hands it the engine of the service and a publisher of its own.
pub trait Sandbox: Send + Sync + Sized {
    fn new(namespace: String, id: String, engine: Engine, publisher: RemotePublisher) -> Self;
}

/// A request to create the sandbox `id`, which works in `working_directory`
/// and publishes its events to `ttrpc_address`.
#[derive(Debug, Clone, PartialEq, Eq)]
pub struct CreateRequest {
    pub id: String,
    pub working_directory: String,
    pub ttrpc_address: String,
    pub namespace: String,
}

/// A request for the socket address of the sandbox `id`.
#[derive(Debug, Clone, PartialEq, Eq)]
pub struct ConnectRequest {
    pub id: String,
    pub ttrpc_address: String,
}

/// A [`CreateRequest`] with its fields as sequences of characters.
pub struct CreateRequestView {
    pub id: Seq<char>,
    pub working_directory: Seq<char>,
    pub ttrpc_address: Seq<char>,
    pub namespace: Seq<char>,
}

impl View for CreateRequest {
    type V = CreateRequestView;

    open spec fn view(&self) -> CreateRequestView {
        CreateRequestView {
            id: self.id@,
            working_directory: self.working_directory@,
            ttrpc_address: self.ttrpc_address@,
            namespace: self.namespace@,
        }
    }
}

/// A [`ConnectRequest`] with its fields as sequences of characters.
pub struct ConnectRequestView {
    pub id: Seq<char>,
    pub ttrpc_address: Seq<char>,
}

impl View for ConnectRequest {
    type V = ConnectRequestView;

    open spec fn view(&self) -> ConnectRequestView {
        ConnectRequestView { id: self.id@, ttrpc_address: self.ttrpc_address@ }
    }
}

/// The manager: the registry of its sandboxes and the engine they share.
pub struct Service<T: Sandbox> {
    sandboxes: Registry,
    engine: Engine,
    phantom: PhantomData<T>,
}

/// `create` has found the id free; the publisher is to be connected.
#[derive(Debug)]
pub struct PublisherPending {
    request: CreateRequest,
}

/// The publisher is connected; the backend is to be built and its server
/// bound to the sandbox's socket, without accepting connections yet.
#[derive(Debug)]
pub struct ServerPending {
    request: CreateRequest,
}

/// The sandbox is registered; its runtime descriptor is to be loaded.
#[derive(Debug)]
pub struct SpecPending {
    request: CreateRequest,
}

/// The descriptor is loaded; the worker thread is to be spawned.
#[derive(Debug)]
pub struct WorkerPending {
    request: CreateRequest,
    spec: RuntimeSpec,
}

/// The worker thread runs; its one report is to be received.
#[derive(Debug)]
pub struct HandoffPending {
    request: CreateRequest,
}

/// What came of waiting for the worker thread's report.
#[derive(Debug, PartialEq, Eq)]
pub enum Handoff {
    /// The thread reported that the sandbox serves.
    Started,
    /// The thread reported this failure.
    Failed(Error),
    /// The thread went away without a report.
    Lost,
}

/// What `create` returns once the worker thread's report is in.
pub open spec fn handoff_result(request: CreateRequest, handoff: Handoff) -> Result<Seq<char>, ErrorView> {
    match handoff {
        Handoff::Started => Ok(socket_path_of(request.working_directory@)),
        Handoff::Failed(e) => Err(ErrorView::Others(e@.text())),
        Handoff::Lost => Err(ErrorView::Others("could not receive sandbox result"@)),
    }
}

impl<T: Sandbox> View for Service<T> {
    type V = Map<Seq<char>, Seq<char>>;

    closed spec fn view(&self) -> Map<Seq<char>, Seq<char>> {
        self.sandboxes@
    }
}

impl<T: Sandbox> Service<T> {
    /// The engine that the manager holds for its sandboxes. It is set when
    /// the manager is made and never changes.
    pub closed spec fn engine_handle(&self) -> Engine {
        self.engine
    }

    /// A manager without sandboxes, which holds `engine` for the sandboxes
    /// to come.
    pub fn new(engine: Engine) -> (service: Self)
        ensures
            service@ == Map::<Seq<char>, Seq<char>>::empty(),
            service.engine_handle() == engine,
    {
        Service::<T> { sandboxes: Registry::new(), engine: engine, phantom: PhantomData }
    }

    /// The number of sandboxes registered.
    pub fn len(&self) -> (n: usize)
        ensures
            n == self@.len(),
    {
        self.sandboxes.len()
    }

    /// Begins the creation of a sandbox. Fails with `AlreadyExists`, and
    /// asks for nothing to be done, where the id is registered already.
    pub fn create(&self, request: CreateRequest) -> (begun: Result<PublisherPending, Error>)
        ensures
            match begun {
                Ok(pending) => registration(self@, request.id@) is Ok && pending.request()
                    == request,
                Err(e) => registration(self@, request.id@) == Err::<(), ErrorView>(e@),
            },
    {
        if self.sandboxes.contains(request.id.as_str()) {
            Err(Error::AlreadyExists(request.id))
        } else {
            Ok(PublisherPending { request })
        }
    }

    /// The backend of the sandbox that `pending` creates: what the backend's
    /// constructor makes of the namespace and the id of the request, the
    /// engine of the service and `publisher`.
    pub fn instantiate(&self, pending: &ServerPending, publisher: RemotePublisher) -> (backend: T)
        ensures
            exists|namespace: String, id: String|
                namespace@ == pending.request().namespace@ && id@ == pending.request().id@
                    && call_ensures(
                    T::new,
                    (namespace, id, self.engine_handle(), publisher),
                    backend,
                ),
    {
        let namespace = pending.request.namespace.clone();
        let id = pending.request.id.clone();
        let engine = share_engine(&self.engine);
        let backend = T::new(namespace, id, engine, publisher);
        assert(call_ensures(T::new, (namespace, id, self.engine_handle(), publisher), backend));
        backend
    }

    /// Takes the outcome of binding the server: the server, or the cause of
    /// the failure. A bound server is registered under the id of the request
    /// and handed back; a failure leaves the registry as it was. An id that
    /// was registered in the meantime is not overwritten: the call fails with
    /// `AlreadyExists`, and the server is dropped.
    pub fn server_bound<S>(&mut self, pending: ServerPending, outcome: Result<S, String>) -> (next: Result<(SpecPending, S), Error>)
        ensures
            match next {
                Ok((registered, server)) => outcome == Ok::<S, String>(server) && registration(
                    old(self)@,
                    pending.request().id@,
                ) is Ok && registered.request() == pending.request() && final(self)@ == old(
                    self,
                )@.insert(
                    pending.request().id@,
                    socket_path_of(pending.request().working_directory@),
                ),
                Err(e) => final(self)@ == old(self)@ && match outcome {
                    Err(cause) => e@ == ErrorView::Others(cause@),
                    Ok(_) => registration(old(self)@, pending.request().id@) == Err::<
                        (),
                        ErrorView,
                    >(e@),
                },
            },
            keeps_entries(final(self)@, old(self)@),
            final(self).engine_handle() == old(self).engine_handle(),
    {
        match outcome {
            Err(cause) => Err(Error::Others(cause)),
            Ok(server) => {
                let address = socket_path(pending.request.working_directory.as_str());
                match self.sandboxes.register(pending.request.id.clone(), address) {
                    Ok(()) => Ok((SpecPending { request: pending.request }, server)),
                    Err(e) => Err(e),
                }
            },
        }
    }

    /// The socket address of a registered sandbox; `NotFound` for an id that
    /// is not registered. Nothing changes.
    pub fn connect(&self, request: &ConnectRequest) -> (found: Result<String, Error>)
        ensures
            match found {
                Ok(address) => resolution(self@, request.id@) == Ok::<Seq<char>, ErrorView>(
                    address@,
                ),
                Err(e) => resolution(self@, request.id@) == Err::<Seq<char>, ErrorView>(e@),
            },
    {
        self.sandboxes.resolve(request.id.as_str())
    }
}

impl PublisherPending {
    pub closed spec fn request(&self) -> CreateRequest {
        self.request
    }

    /// The address that the publisher connects to.
    pub fn address(&self) -> (address: &str)
        ensures
            address@ == self.request().ttrpc_address@,
    {
        self.request.ttrpc_address.as_str()
    }

    /// Takes the outcome of connecting the publisher: the publisher, which
    /// is handed back, or the cause of the failure, which ends the call at
    /// once.
    pub fn connected<P>(self, outcome: Result<P, String>) -> (next: Result<(ServerPending, P), Error>)
        ensures
            match next {
                Ok((pending, publisher)) => outcome == Ok::<P, String>(publisher)
                    && pending.request() == self.request(),
                Err(e) => outcome matches Err(cause) && e@ == ErrorView::Others(cause@),
            },
    {
        match outcome {
            Ok(publisher) => Ok((ServerPending { request: self.request }, publisher)),
            Err(cause) => Err(Error::Others(cause)),
        }
    }
}

impl ServerPending {
    pub closed spec fn request(&self) -> CreateRequest {
        self.request
    }

    /// The address that the server binds to.
    pub fn socket_path(&self) -> (path: String)
        ensures
            path@ == socket_path_of(self.request().working_directory@),
    {
        socket_path(self.request.working_directory.as_str())
    }
}

impl SpecPending {
    pub closed spec fn request(&self) -> CreateRequest {
        self.request
    }

    /// The path of the descriptor to load.
    pub fn config_path(&self) -> (path: String)
        ensures
            path@ == config_path_of(self.request().working_directory@),
    {
        config_path(self.request.working_directory.as_str())
    }

    /// Takes the outcome of loading the descriptor: a failure ends the call
    /// with `InvalidArgument`, and no worker is spawned.
    pub fn loaded(self, outcome: Result<RuntimeSpec, String>) -> (next: Result<WorkerPending, Error>)
        ensures
            match next {
                Ok(pending) => outcome == Ok::<RuntimeSpec, String>(pending.spec())
                    && pending.request() == self.request(),
                Err(e) => outcome matches Err(cause) && e@ == ErrorView::InvalidArgument(
                    "could not load runtime spec: "@ + cause@,
                ),
            },
    {
        match outcome {
            Ok(spec) => Ok(WorkerPending { request: self.request, spec }),
            Err(cause) => Err(
                Error::InvalidArgument(prefixed("could not load runtime spec: ", cause.as_str())),
            ),
        }
    }
}

impl WorkerPending {
    pub closed spec fn request(&self) -> CreateRequest {
        self.request
    }

    pub closed spec fn spec(&self) -> RuntimeSpec {
        self.spec
    }

    /// The name of the worker thread.
    pub fn thread_name(&self) -> (name: String)
        ensures
            name@ == worker_name_of(self.request().id@),
    {
        worker_name(self.request.id.as_str())
    }

    /// The first operation of the worker thread.
    pub fn first_op(&self) -> (op: SetupOp)
        ensures
            op@ == first_op_of(network_plan(self.spec().declared_namespaces())),
    {
        start_sandbox(&self.spec)
    }

    /// Takes the outcome of spawning the worker thread.
    pub fn spawned(self, outcome: Result<(), String>) -> (next: Result<HandoffPending, Error>)
        ensures
            match next {
                Ok(pending) => outcome is Ok && pending.request() == self.request(),
                Err(e) => outcome matches Err(cause) && e@ == ErrorView::Others(
                    "failed to spawn sandbox thread: "@ + cause@,
                ),
            },
    {
        match outcome {
            Ok(()) => Ok(HandoffPending { request: self.request }),
            Err(cause) => Err(
                Error::Others(prefixed("failed to spawn sandbox thread: ", cause.as_str())),
            ),
        }
    }
}

impl HandoffPending {
    pub closed spec fn request(&self) -> CreateRequest {
        self.request
    }

    /// Takes what came of waiting for the worker thread and ends the call:
    /// with the socket address of the sandbox where the thread reported
    /// success, with an `Others` error in every other case.
    pub fn received(self, handoff: Handoff) -> (reply: Result<String, Error>)
        ensures
            match reply {
                Ok(address) => handoff_result(self.request(), handoff) == Ok::<
                    Seq<char>,
                    ErrorView,
                >(address@),
                Err(e) => handoff_result(self.request(), handoff) == Err::<Seq<char>, ErrorView>(
                    e@,
                ),
            },
    {
        match handoff {
            Handoff::Started => Ok(socket_path(self.request.working_directory.as_str())),
            Handoff::Failed(e) => Err(Error::Others(e.to_text())),
            Handoff::Lost => Err(Error::Others("could not receive sandbox result".to_owned())),
        }
    }
}

} // verus!
