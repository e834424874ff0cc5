[package]
name = "esp32_bt_speaker"
version = "0.1.0"
edition = "2021"
publish = false

[dependencies]
anyhow = "1"
enumset = "1"
esp-idf-svc = { version = "*", default-features = false, features = ["std"] }
gamma-table-macros = "*"
log = "0.4"
microfft = "*"
rtrb = "*"
