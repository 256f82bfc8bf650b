[package]
name = "event_sync"
version = "0.1.0"
edition = "2021"
publish = false

[dependencies]
starknet = "=0.17.0"
sqlx = { version = "=0.8.6", default-features = false, features = ["postgres", "runtime-tokio"] }
tokio = { version = "=1.53.2", features = ["macros", "rt-multi-thread", "time"] }
url = "2"
dotenv = "0.15"
env_logger = "*"
log = "*"

[dev-dependencies]
num-traits = "=0.2.19"
starknet-core = "=0.16.0"
