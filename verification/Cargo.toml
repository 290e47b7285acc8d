[package]
name = "okta-authn"
version = "0.1.0"
edition = "2021"
publish = false

[dependencies]
base64 = "0.13"
clap = "*"
ctap-hid-fido2 = "*"
dirs = "*"
keyring = "*"
reqwest = { version = "0.11", default-features = false, features = ["json"] }
rpassword = "*"
serde = { version = "1", features = ["derive"] }
serde_json = "1"
tokio = { version = "1", features = ["macros", "rt-multi-thread"] }
toml = "*"
uuid = { version = "1", features = ["v4"] }
