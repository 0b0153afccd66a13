[package]
name = "esp_pomodoro"
version = "0.1.0"
edition = "2021"
publish = false

[dependencies]
embedded-graphics = "=0.8.2"
esp-idf-svc = "0.49"
log = "=0.4.34"
sh1106 = "=0.5.0"
time = "=0.3.55"
