[package]
name = "spam_db"
version = "0.1.0"
edition = "2021"
publish = false

[dependencies]
anchor-lang = { version = "=0.30.1", features = ["init-if-needed"] }
bytemuck = { version = "=1.25.2", features = ["derive", "min_const_generics"] }
