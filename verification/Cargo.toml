[package]
name = "keyring_prompt"
version = "0.1.0"
edition = "2021"
publish = false

[dependencies]
tokio = { version = "=1.54.1", features = ["macros", "rt-multi-thread"] }
zbus = { version = "=4.4.0", default-features = false, features = ["tokio"] }
zvariant = { version = "=4.2.0" }
