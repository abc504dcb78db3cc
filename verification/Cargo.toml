[package]
name = "url_to_md"
version = "0.1.0"
edition = "2021"
publish = false

[dependencies]
select = "*"
html2md = "*"
chrono = "*"
reqwest = { version = "*", default-features = false }
tokio = { version = "*", features = ["macros", "rt-multi-thread"] }
