[package]
name = "discord_bot"
version = "0.1.0"
edition = "2021"
publish = false

[dependencies]
anyhow = "*"
log = "*"
dotenvy = "*"
serde = { version = "*", features = ["derive"] }
serde_json = "*"
esp-idf-svc = "*"
esp-idf-sys = "*"
embedded-svc = "*"
embedded-graphics = "*"
ssd1306 = "*"
display-interface-spi = "*"
