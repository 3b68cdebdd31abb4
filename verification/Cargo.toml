[package]
name = "trp_proxy"
version = "0.1.0"
edition = "2021"
publish = false

[dependencies]
async-trait = "*"
chrono = { version = "*", default-features = false, features = ["clock"] }
dotenv = "*"
futures-util = "*"
http-body-util = "*"
hyper = { version = "*", features = ["http1", "server", "client"] }
hyper-util = { version = "*", features = ["tokio", "client-legacy", "http1"] }
k8s-openapi = { version = "0.27", features = ["latest"] }
kube = { version = "*", features = ["runtime", "derive"] }
lazy_static = "*"
notify = { version = "*", default-features = false }
pingora = { version = "*", features = ["proxy", "rustls"] }
pingora-limits = "=0.9.0"
prometheus = { version = "0.13", default-features = false }
regex = "=1.13.1"
rustls = "*"
schemars = "*"
serde = { version = "*", features = ["derive"] }
serde_json = "*"
tokio = { version = "*", features = ["macros", "rt-multi-thread", "net", "sync", "time"] }
toml = "*"
tracing = "*"
tracing-subscriber = { version = "*", default-features = false, features = ["fmt"] }
