[package]
name = "sqlite_profiler"
version = "0.1.0"
edition = "2021"
publish = false

[dependencies]
fake = "*"
flexi_logger = "*"
log = "0.4"
rusqlite = { version = "*", features = ["trace"] }
structopt = "0.3"
