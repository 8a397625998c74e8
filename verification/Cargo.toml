[package]
name = "prompter_completions"
version = "0.1.0"
edition = "2021"
publish = false

[dependencies]
clap = "=4.5.61"
clap_complete = "=4.5.67"
toml = "=1.1.7"
serde = { version = "=1.0.229", features = ["derive"] }
serde_json = "=1.0.151"
