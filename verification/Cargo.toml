[package]
name = "hadal"
version = "0.1.0"
edition = "2021"
publish = false

[dependencies]
anyhow = "=1.0.104"
clap = { version = "=4.6.7", features = ["derive"] }
crossterm = "0.28"
dirs = "=5.0.1"
image = { version = "0.25", default-features = false, features = ["jpeg", "png"] }
libc = "0.2"
lofty = "=0.18.2"
parking_lot = "=0.12.5"
ratatui = "0.29"
ringbuf = "0.4"
rubato = "0.15"
rusqlite = { version = "=0.31.0", features = ["bundled"] }
rustfft = "=6.4.1"
serde = { version = "=1.0.229", features = ["derive"] }
symphonia = { version = "0.5", features = ["all"] }
thiserror = "=1.0.69"
tokio = { version = "1", features = ["fs", "sync", "rt-multi-thread", "macros"] }
toml = "=0.8.23"
tracing = "=0.1.44"
tracing-subscriber = { version = "=0.3.23", features = ["env-filter"] }
