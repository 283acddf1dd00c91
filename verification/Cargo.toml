[package]
name = "sandbox_manager"
version = "0.1.0"
edition = "2021"
publish = false

[dependencies]
containerd-shim = "=0.11.0"
nix = { version = "=0.31.3", features = ["sched"] }
oci-spec = "=0.10.0"
ttrpc = "=0.9.0"
wasmtime = { version = "=36.0.19", default-features = false, features = ["runtime", "std"] }
