[package]
name = "greek_vocab_test_maker"
version = "0.1.0"
edition = "2021"
publish = false

[dependencies]
csv = "1"
rustyline = "*"
serde = { version = "1", features = ["derive"] }
