[package]
name = "stack_etl"
version = "0.1.0"
edition = "2021"
publish = false

[dependencies]
chrono = "0.4"
clap = { version = "4", features = ["derive"] }
diesel = { version = "2", features = ["postgres", "chrono"] }
quick-xml = "0.37"
thiserror = "2"
