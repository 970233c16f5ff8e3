[package]
name = "feos"
version = "0.1.0"
edition = "2021"
publish = false

[dependencies]
uuid = { version = "1", features = ["v4"] }
sha2 = "0.10"
hex = "0.4"
chrono = "0.4"
sntpc = "*"
oci-distribution = { version = "0.11", default-features = false, features = ["rustls-tls"] }
tokio = { version = "1", features = ["full"] }
tokio-stream = { version = "0.1", features = ["net"] }
tonic = "0.12"
prost = "0.13"
sqlx = { version = "0.8", default-features = false, features = ["runtime-tokio", "sqlite", "macros", "migrate"] }
nix = { version = "0.29", features = ["signal", "process", "reboot", "hostname", "net", "feature", "user"] }
clap = { version = "4", features = ["derive", "env"] }
serde = { version = "1", features = ["derive"] }
serde_json = "1"
flate2 = "1"
tar = "0.4"
tempfile = "3"
rtnetlink = "*"
netlink-packet-route = "*"
futures = "0.3"
hyper = "1"
hyper-util = { version = "0.1", features = ["client-legacy", "http1", "tokio"] }
http-body-util = "0.1"
hyper-rustls = { version = "0.27", default-features = false, features = ["http1", "ring", "native-tokio"] }
hyperlocal = "0.9"
cloud-hypervisor-client = "*"
log = "0.4"
env_logger = "0.11"
libc = "0.2"
