[package]
name = "zz_metasvr"
version = "0.1.0"
edition = "2021"
publish = false

[dependencies]
openssl = "=0.10.82"
regex = "=1.13.1"
serde = { version = "*", features = ["derive"] }
serde_json = "*"
toml = "*"
chrono = "*"
uuid = { version = "*", features = ["v4"] }
log = "*"
env_logger = "*"
ntex = { version = "=3.4.0", features = ["tokio", "openssl"] }
deadpool = "*"
deadpool-postgres = "*"
deadpool-redis = "*"
tokio-postgres = "*"
redis = { version = "*", features = ["r2d2"] }
r2d2 = "*"
ntex-bytes = "=1.5.0"
ntex-codec = "=1.1.0"
ntex-dispatcher = "=3.1.0"
ntex-h2 = "=3.7.1"
ntex-http = "=1.0.0"
ntex-io = "=3.8.0"
ntex-macros = "=3.1.0"
ntex-net = "=3.7.0"
ntex-router = "=1.0.0"
ntex-rt = "=3.7.0"
ntex-server = "=3.8.0"
ntex-service = "=4.4.0"
ntex-tls = "=3.3.0"
ntex-util = "=3.4.0"
