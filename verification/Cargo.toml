[package]
name = "sys_menu"
version = "0.1.0"
edition = "2021"
publish = false

[dependencies]
anyhow = "1"
chrono = "0.4"
scru128 = "*"
sea-orm = { version = "1", default-features = false, features = ["macros", "with-chrono"] }
