[package]
name = "puppetbots"
version = "0.1.0"
edition = "2021"
publish = false

[dependencies]
serde = { version = "=1.0.229", features = ["derive"] }
serde_json = "=1.0.154"
ws = "=0.9.2"
reqwest = { version = "=0.11.27", default-features = false, features = ["blocking", "rustls-tls"] }
adafruit_motorkit = "=0.1.1"
ads1x1x = "=0.2.2"
embedded-hal = "=0.2.7"
linux-embedded-hal = "=0.3.2"
nb = "=0.1.3"
pwm-pca9685 = "=0.2.0"
