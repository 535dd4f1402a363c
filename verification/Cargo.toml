[package]
name = "tcm_walker"
version = "0.1.0"
edition = "2021"
publish = false

[dependencies]
anyhow = "1"
async-trait = "0.1"
clap = { version = "4", features = ["derive"] }
crossterm = "0.27"
hashbrown = "0.14"
infer = "0.15"
itertools = "0.12"
once_cell = "1"
quick-xml = { version = "0.31", features = ["serialize"] }
ratatui = "0.26"
serde = { version = "1", features = ["derive"] }
serde_json = "1"
sqlx = { version = "0.7", default-features = false, features = ["runtime-tokio", "sqlite"] }
syntect = "5"
tokio = { version = "1", features = ["full"] }
tracing = "0.1"
tracing-subscriber = "0.3"
two-face = "0.3"
unicode-segmentation = "1"
unicode-width = "0.1"
