[package]
name = "seeders"
version = "0.1.0"
edition = "2021"
publish = false

[dependencies]
concrete-csprng = { version = "0.4", features = ["seeder_unix", "seeder_x86_64_rdseed"] }
getrandom = "0.2"
lazy_static = "1.4"
rand_chacha = "0.3"
rand_core = "0.6"
sha2 = "0.10"
