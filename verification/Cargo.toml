[package]
name = "raspi_monitor"
version = "0.1.0"
edition = "2021"
publish = false

[dependencies]
anyhow = "=1.0.104"
clap = { version = "=4.6.7", features = ["derive"] }
clap-num = "=1.2.0"
display-interface = "=0.5.0"
display-interface-i2c = "=0.5.0"
embedded-graphics = "=0.8.2"
rppal = { version = "=0.22.1", features = ["embedded-hal"] }
ssd1306 = "=0.10.0"
sysinfo = "=0.39.6"
tracing = "=0.1.44"
tracing-subscriber = "=0.3.23"
