[package]
name = "voice_lobby"
version = "0.1.0"
edition = "2021"
publish = false

[dependencies]
rand = "0.8"
serenity = "0.12"
tokio = { version = "1", features = ["rt-multi-thread"] }
dotenv = "0.15"
shuttle-runtime = "*"
shuttle-serenity = "*"
supabase_rs = "*"
