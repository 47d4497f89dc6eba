[package]
name = "luna_cli"
version = "0.1.0"
edition = "2021"
publish = false

[dependencies]
serde = { version = "1", features = ["derive"] }
serde_json = "1"
toml = "*"
clap = { version = "4", features = ["derive", "env"] }
clap_complete = "4"
miette = "*"
starbase = "*"
starbase_console = { version = "*", features = ["ui"] }
iocraft = "*"
tokio = { version = "1", features = ["full"] }
tracing = "0.1"
tracing-subscriber = { version = "0.3", features = ["json", "env-filter"] }
home = "*"
async-trait = "0.1"
