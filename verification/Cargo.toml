[package]
name = "ohg_bot"
version = "0.1.0"
edition = "2021"
publish = false

[dependencies]
arrayvec = "0.5"
async-trait = "0.1"
byteorder = "1"
cache_2q = "*"
futures = "0.3"
once_cell = "1"
serde = { version = "1", features = ["derive"] }
serenity = "0.11"
tokio = { version = "1", features = ["macros", "rt-multi-thread", "sync"] }
typetag = "*"
wither = "0.9"
