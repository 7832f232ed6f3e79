[package]
name = "project_runner"
version = "0.1.0"
edition = "2021"
publish = false

[dependencies]
shlex = "1"
nix = { version = "0.29", features = ["signal"] }
serde = { version = "1", features = ["derive"] }
serde_json = "1"
winapi = { version = "0.3", features = ["processthreadsapi", "winnt", "handleapi", "minwindef"] }
