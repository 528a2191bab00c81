[package]
name = "cyborg_oracle_feeder"
version = "0.1.0"
edition = "2021"
publish = false

[dependencies]
once_cell = "1"
subxt-signer = { version = "0.38", default-features = false, features = ["sr25519", "std"] }
tokio = { version = "1", features = ["macros", "rt-multi-thread", "sync", "time"] }
reqwest = { version = "0.12", default-features = false }
serde = { version = "1", features = ["derive"] }
serde_json = "1"
serde-aux = "4"
clap = { version = "4", features = ["derive"] }
dirs = "5"
dotenv = "0.15"
log = "0.4"
async-trait = "0.1"
