[package]
name = "phos"
version = "0.1.0"
edition = "2021"
publish = false

[dependencies]
regex = "1"
nu-ansi-term = "*"
ansi-to-html = "*"
dirs = "*"
serde = { version = "1", features = ["derive"] }
serde_yaml = "*"
serde_json = "1"
clap = { version = "4", features = ["derive"] }
clap_complete = "4"
clap_mangen = "*"
anyhow = "1"
thiserror = "*"
atty = "*"
is-terminal = "*"
reqwest = { version = "*", default-features = false, features = ["json", "blocking", "rustls-tls"] }
