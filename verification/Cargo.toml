[package]
name = "classroom_auth"
version = "0.1.0"
edition = "2021"
publish = false

[dependencies]
argon2 = "=0.5.3"
hmac = "=0.12.1"
jwt = "=0.16.0"
sha2 = "=0.10.9"
dotenvy = "=0.15.7"
rand_core = { version = "=0.6.4", default-features = false, features = ["getrandom"] }
