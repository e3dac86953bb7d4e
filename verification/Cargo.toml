[package]
name = "rustls_libcrux_provider"
version = "0.1.0"
edition = "2021"
publish = false

[dependencies]
rustls = { version = "=0.23.46", default-features = false, features = ["std", "tls12"] }
rustls-pki-types = "=1.15.1"
libcrux = "=0.0.6"
hpke-rs = { version = "=0.8.0", features = ["hazmat"] }
der = { version = "=0.8.3", features = ["alloc", "oid", "pem"] }
pkcs8 = { version = "=0.11.0", features = ["alloc", "pem"] }
sec1 = { version = "=0.8.1", features = ["der"] }
rand_core = { version = "=0.9.5", features = ["os_rng"] }
rand = { version = "=0.10.3", default-features = false, features = ["sys_rng"] }
actix-web = { version = "4", default-features = false, features = ["macros", "rustls-0_23"] }
actix-tls = { version = "3", default-features = false, features = ["accept", "rustls-0_23"] }
handlebars = "*"
serde = { version = "1", features = ["derive"] }
env_logger = "*"
log = "0.4"
