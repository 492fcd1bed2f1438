[package]
name = "timesync"
version = "0.1.0"
edition = "2021"
publish = false

[dependencies]
async-trait = "0.1"
byteorder = "1"
chrono = "0.4"
env_logger = "0.10"
gpsd_proto = "*"
log = "0.4"
rand = "0.8"
rocket = "0.5"
serde = { version = "1", features = ["derive"] }
serde_derive = "1"
serde_json = "1"
sntpc = "0.3"
sysinfo = "0.29"
time = "0.1"
tokio = { version = "1", features = ["full"] }
toml = "0.8"
utoipa = { version = "3", features = ["rocket_extras"] }
utoipa-swagger-ui = { version = "3", features = ["rocket"] }
