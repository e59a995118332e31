[package]
name = "script_supervisor"
version = "0.1.0"
edition = "2021"
publish = false

[dependencies]
deno_core = { version = "=0.413.0" }
deno_path_util = { version = "=0.6.4" }
serde = { version = "=1.0.229", features = ["derive"] }
tokio = { version = "=1.54.1", features = ["rt", "time"] }
