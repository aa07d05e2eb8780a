[package]
name = "pupil_auth"
version = "0.1.0"
edition = "2021"
publish = false

[dependencies]
argon2rs = "=0.2.5"
chrono = { version = "=0.4.45", default-features = false, features = ["clock", "std"] }
crockford = "=1.2.1"
diesel = { version = "=2.3.14", default-features = false, features = ["postgres", "r2d2", "chrono"] }
dotenv = "=0.15.0"
jsonwebtoken = { version = "=10.4.0", default-features = false, features = ["rust_crypto"] }
lettre = "=0.11.23"
publicsuffix = { version = "=1.5.6", default-features = false }
rand = "=0.8.8"
rocket = { version = "=0.5.2", features = ["json"] }
serde = { version = "=1.0.229", features = ["derive"] }
serde_json = { version = "=1.0.154", features = ["preserve_order"] }
