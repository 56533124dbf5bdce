[package]
name = "xearthlayer"
version = "0.5.0"
edition = "2021"
publish = false

[dependencies]
dirs = "5"
dokan = "0.3"
dokan-sys = "0.3"
libc = "0.2"
memory-stats = "1.2"
tokio = { version = "1", features = ["rt", "sync", "time"] }
tokio-util = "0.7"
tracing = "0.1"
widestring = "0.4.3"
winapi = { version = "0.3", features = ["ntdef", "ntstatus", "winnt"] }

[dev-dependencies]
tempfile = "3"
