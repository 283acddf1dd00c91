//! The bootstrap: invoked once per task launch, it resolves the socket
//! address of the sandbox that the task belongs to, whether or not the
//! manager knows that sandbox already.
//!
//! Like `create` on the manager's side it is a chain of stages: load the
//! descriptor, dial the manager, ask it to create the sandbox and, where it
//! refuses for whatever reason, ask it to connect instead.

use vstd::prelude::*;
use containerd_shim::{Config, StartOpts};
use crate::endpoint::{config_path, config_path_of, MANAGER_SOCKET, SANDBOX_ID_ANNOTATION};
use crate::error::{prefixed, Error, ErrorView};
use crate::manager::{ConnectRequest, ConnectRequestView, CreateRequest, CreateRequestView};
use crate::runtime_spec::RuntimeSpec;

verus! {

/// The bootstrap side of the protocol.
#[derive(Debug)]
pub struct Shim {}

/// What a bootstrap is after: the sandbox, the address for its events and the
/// directory it works in.
pub struct Target {
    pub sandbox: Seq<char>,
    pub ttrpc_address: Seq<char>,
    pub working_directory: Seq<char>,
}

/// The working directory is known; its descriptor is to be loaded.
#[derive(Debug)]
pub struct DescriptorPending {
    launch_id: String,
    ttrpc_address: String,
    working_directory: String,
}

/// The sandbox id is settled; the manager is to be dialled.
#[derive(Debug)]
pub struct ManagerPending {
    sandbox: String,
    ttrpc_address: String,
    working_directory: String,
}

/// The manager is reached; it is to be asked to create the sandbox.
#[derive(Debug)]
pub struct CreatePending {
    sandbox: String,
    ttrpc_address: String,
    working_directory: String,
}

/// The manager refused to create the sandbox; it is to be asked to connect.
#[derive(Debug)]
pub struct ConnectPending {
    sandbox: String,
    ttrpc_address: String,
}

/// What follows the manager's answer to `create`.
#[derive(Debug)]
pub enum Resolution {
    /// The sandbox was created: this is its socket address.
    Resolved(String),
    /// The manager refused: ask it to connect.
    Fallback(ConnectPending),
}

/// The id of the sandbox that a task belongs to: the sandbox group of its
/// descriptor where it names one, else the id of the launch.
pub open spec fn sandbox_id_of(spec: RuntimeSpec, launch_id: Seq<char>) -> Seq<char> {
    match spec.sandbox_group() {
        Some(group) => group,
        None => launch_id,
    }
}

/// The request by which a bootstrap asks for its sandbox to be created.
pub open spec fn create_request_for(target: Target) -> CreateRequestView {
    CreateRequestView {
        id: target.sandbox,
        working_directory: target.working_directory,
        ttrpc_address: target.ttrpc_address,
        namespace: Seq::empty(),
    }
}

/// The request by which a bootstrap asks for the address of its sandbox.
pub open spec fn connect_request_for(target: Target) -> ConnectRequestView {
    ConnectRequestView { id: target.sandbox, ttrpc_address: target.ttrpc_address }
}

/// A reply of the manager over views.
pub open spec fn reply_of(reply: Result<String, Error>) -> Result<Seq<char>, ErrorView> {
    match reply {
        Ok(address) => Ok(address@),
        Err(e) => Err(e@),
    }
}

/// The socket address that a bootstrap ends with, given the manager's answer
/// to `create` and the answer that it gives to `connect` where it is asked.
pub open spec fn resolved(created: Result<Seq<char>, ErrorView>, connected: Result<Seq<char>, ErrorView>) -> Result<Seq<char>, ErrorView> {
    match created {
        Ok(address) => Ok(address),
        Err(_) => connected,
    }
}

impl Shim {
    /// A bootstrap for one task launch. Nothing of the launch is kept, and
    /// `config` is left as it is.
    pub fn new(runtime_id: &str, id: &str, namespace: &str, config: &mut Config) -> (shim: Shim)
        ensures
            *final(config) == *old(config),
    {
        Shim {  }
    }

    /// The id of the sandbox that a task launched as `launch_id` belongs to.
    pub fn sandbox_id(spec: &RuntimeSpec, launch_id: &str) -> (id: String)
        ensures
            id@ == sandbox_id_of(*spec, launch_id@),
    {
        match spec.annotation(SANDBOX_ID_ANNOTATION) {
            Some(group) => group.to_owned(),
            None => launch_id.to_owned(),
        }
    }

    /// Begins the bootstrap of the launch `opts` in the working directory
    /// that the caller resolved. Fails with `Others` where it could not
    /// resolve one.
    pub fn start_shim(&mut self, opts: StartOpts, working_directory: Result<String, String>) -> (begun: Result<DescriptorPending, Error>)
        ensures
            match begun {
                Ok(pending) => working_directory matches Ok(directory) && pending.working_directory()
                    == directory@ && pending.launch_id() == opts.id@ && pending.ttrpc_address()
                    == opts.ttrpc_address@,
                Err(e) => working_directory matches Err(cause) && e@ == ErrorView::Others(cause@),
            },
            *final(self) == *old(self),
    {
        match working_directory {
            Ok(directory) => Ok(
                DescriptorPending {
                    launch_id: opts.id,
                    ttrpc_address: opts.ttrpc_address,
                    working_directory: directory,
                },
            ),
            Err(cause) => Err(Error::Others(cause)),
        }
    }
}

impl DescriptorPending {
    pub closed spec fn launch_id(&self) -> Seq<char> {
        self.launch_id@
    }

    pub closed spec fn ttrpc_address(&self) -> Seq<char> {
        self.ttrpc_address@
    }

    pub closed spec fn working_directory(&self) -> Seq<char> {
        self.working_directory@
    }

    /// The path of the descriptor to load.
    pub fn config_path(&self) -> (path: String)
        ensures
            path@ == config_path_of(self.working_directory()),
    {
        config_path(self.working_directory.as_str())
    }

    /// Takes the outcome of loading the descriptor and settles the sandbox
    /// id. A failure ends the bootstrap with `InvalidArgument`.
    pub fn loaded(self, outcome: Result<RuntimeSpec, String>) -> (next: Result<ManagerPending, Error>)
        ensures
            match next {
                Ok(pending) => outcome matches Ok(spec) && pending.target() == (Target {
                    sandbox: sandbox_id_of(spec, self.launch_id()),
                    ttrpc_address: self.ttrpc_address(),
                    working_directory: self.working_directory(),
                }),
                Err(e) => outcome matches Err(cause) && e@ == ErrorView::InvalidArgument(
                    "error loading runtime spec: "@ + cause@,
                ),
            },
    {
        match outcome {
            Ok(spec) => {
                let sandbox = Shim::sandbox_id(&spec, self.launch_id.as_str());
                Ok(
                    ManagerPending {
                        sandbox,
                        ttrpc_address: self.ttrpc_address,
                        working_directory: self.working_directory,
                    },
                )
            },
            Err(cause) => Err(
                Error::InvalidArgument(prefixed("error loading runtime spec: ", cause.as_str())),
            ),
        }
    }
}

impl ManagerPending {
    pub closed spec fn target(&self) -> Target {
        Target {
            sandbox: self.sandbox@,
            ttrpc_address: self.ttrpc_address@,
            working_directory: self.working_directory@,
        }
    }

    /// The address to dial: the manager's, whatever the launch.
    pub fn address(&self) -> (address: &'static str)
        ensures
            address@ == MANAGER_SOCKET@,
    {
        MANAGER_SOCKET
    }

    /// Takes the outcome of dialling the manager: the connection, which is
    /// handed back, or the cause of the failure, which ends the bootstrap.
    pub fn dialed<C>(self, outcome: Result<C, String>) -> (next: Result<(CreatePending, C), Error>)
        ensures
            match next {
                Ok((pending, connection)) => outcome == Ok::<C, String>(connection)
                    && pending.target() == self.target(),
                Err(e) => outcome matches Err(cause) && e@ == ErrorView::Others(cause@),
            },
    {
        match outcome {
            Ok(connection) => Ok(
                (
                    CreatePending {
                        sandbox: self.sandbox,
                        ttrpc_address: self.ttrpc_address,
                        working_directory: self.working_directory,
                    },
                    connection,
                ),
            ),
            Err(cause) => Err(Error::Others(cause)),
        }
    }
}

impl CreatePending {
    pub closed spec fn target(&self) -> Target {
        Target {
            sandbox: self.sandbox@,
            ttrpc_address: self.ttrpc_address@,
            working_directory: self.working_directory@,
        }
    }

    /// The request to send.
    pub fn request(&self) -> (request: CreateRequest)
        ensures
            request@ == create_request_for(self.target()),
    {
        CreateRequest {
            id: self.sandbox.clone(),
            working_directory: self.working_directory.clone(),
            ttrpc_address: self.ttrpc_address.clone(),
            namespace: String::new(),
        }
    }

    /// Takes the manager's answer. The address it gives resolves the
    /// bootstrap; any failure, of whatever kind, leads to `connect`.
    pub fn replied(self, reply: Result<String, Error>) -> (next: Resolution)
        ensures
            match next {
                Resolution::Resolved(address) => reply_of(reply) == Ok::<Seq<char>, ErrorView>(
                    address@,
                ),
                Resolution::Fallback(pending) => reply is Err && pending.awaited()
                    == connect_request_for(self.target()),
            },
    {
        match reply {
            Ok(address) => Resolution::Resolved(address),
            Err(_) => Resolution::Fallback(
                ConnectPending { sandbox: self.sandbox, ttrpc_address: self.ttrpc_address },
            ),
        }
    }
}

impl ConnectPending {
    /// The request that the manager is to be sent.
    pub closed spec fn awaited(&self) -> ConnectRequestView {
        ConnectRequestView { id: self.sandbox@, ttrpc_address: self.ttrpc_address@ }
    }

    /// The request to send.
    pub fn request(&self) -> (request: ConnectRequest)
        ensures
            request@ == self.awaited(),
    {
        ConnectRequest { id: self.sandbox.clone(), ttrpc_address: self.ttrpc_address.clone() }
    }

    /// Takes the manager's answer, which ends the bootstrap as it stands:
    /// the address, or the failure.
    pub fn replied(self, reply: Result<String, Error>) -> (end: Result<String, Error>)
        ensures
            end == reply,
    {
        reply
    }
}

} // verus!
