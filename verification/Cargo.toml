[package]
name = "co_slog"
version = "0.1.0"
edition = "2021"
publish = false

[dependencies]
slog = "2"
slog-term = "2"
may = "0.3"
lazy_static = "1"
crossbeam = "0.4"
