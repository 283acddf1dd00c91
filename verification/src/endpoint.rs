//! The naming rules that both sides of the protocol must reproduce exactly:
//! where a sandbox's socket lives, where its runtime descriptor lies, how its
//! worker thread is called, and where the manager itself listens.

use vstd::prelude::*;

verus! {

/// The control endpoint of the manager. It is fixed: no call configures it.
pub const MANAGER_SOCKET: &'static str = "unix:///run/io.containerd.wasmtime.v1/manager.sock";

/// The annotation by which a runtime descriptor assigns its container to a
/// sandbox group.
pub const SANDBOX_ID_ANNOTATION: &'static str = "io.kubernetes.cri.sandbox-id";

/// The socket address of the sandbox that works in `working_directory`.
pub open spec fn socket_path_of(working_directory: Seq<char>) -> Seq<char> {
    "unix://"@ + working_directory + "/shim.sock"@
}

/// The path of the runtime descriptor in `working_directory`: the directory
/// and the file name `config.json`, with one separator between them unless the
/// directory is empty or already ends in one.
pub open spec fn config_path_of(working_directory: Seq<char>) -> Seq<char> {
    if working_directory.len() == 0 || working_directory.last() == '/' {
        working_directory + "config.json"@
    } else {
        working_directory + "/"@ + "config.json"@
    }
}

/// The name of the worker thread that serves sandbox `id`.
pub open spec fn worker_name_of(id: Seq<char>) -> Seq<char> {
    id + "-sandbox-create"@
}

/// The socket address of the sandbox that works in `working_directory`.
pub fn socket_path(working_directory: &str) -> (path: String)
    ensures
        path@ == socket_path_of(working_directory@),
{
    let mut path = "unix://".to_owned();
    path.append(working_directory);
    path.append("/shim.sock");
    path
}

/// The path of the runtime descriptor in `working_directory`.
pub fn config_path(working_directory: &str) -> (path: String)
    ensures
        path@ == config_path_of(working_directory@),
{
    let n: usize = working_directory.unicode_len();
    let mut path = working_directory.to_owned();
    if n > 0 && working_directory.get_char(n - 1) != '/' {
        path.append("/");
    }
    path.append("config.json");
    path
}

/// The name of the worker thread that serves sandbox `id`.
pub fn worker_name(id: &str) -> (name: String)
    ensures
        name@ == worker_name_of(id@),
{
    let mut name = id.to_owned();
    name.append("-sandbox-create");
    name
}

/// Two working directories never share a socket address.
pub proof fn lemma_socket_path_injective(a: Seq<char>, b: Seq<char>)
    requires
        socket_path_of(a) == socket_path_of(b),
    ensures
        a == b,
{
    let head = "unix://"@;
    let tail = "/shim.sock"@;
    let pa = socket_path_of(a);
    let pb = socket_path_of(b);
    assert(pa.len() == head.len() + a.len() + tail.len());
    assert(pb.len() == head.len() + b.len() + tail.len());
    assert(a.len() == b.len());
    assert forall|i: int| 0 <= i < a.len() implies a[i] == b[i] by {
        assert(pa[head.len() + i] == a[i]);
        assert(pb[head.len() + i] == b[i]);
    }
    assert(a =~= b);
}

/// Two sandboxes never share the name of a worker thread.
pub proof fn lemma_worker_name_injective(a: Seq<char>, b: Seq<char>)
    requires
        worker_name_of(a) == worker_name_of(b),
    ensures
        a == b,
{
    let tail = "-sandbox-create"@;
    let na = worker_name_of(a);
    let nb = worker_name_of(b);
    assert(na.len() == a.len() + tail.len());
    assert(nb.len() == b.len() + tail.len());
    assert forall|i: int| 0 <= i < a.len() implies a[i] == b[i] by {
        assert(na[i] == a[i]);
        assert(nb[i] == b[i]);
    }
    assert(a =~= b);
}

} // verus!
