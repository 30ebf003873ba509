[package]
name = "hestia-sat"
version = "0.1.0"
edition = "2021"
publish = false

[dependencies]
byteorder = "1"
chrono = "0.4"
clap = { version = "4", features = ["derive"] }
colored = "2"
ctrlc = "3"
dotenv = "0.15"
duration-str = "*"
env_logger = "*"
envy = "0.4"
flate2 = "1"
glob = "0.3"
i2c-linux = "*"
lazy_static = "1"
log = "0.4"
serde = { version = "1", features = ["derive"] }
serial_int = "*"
syslog = "*"
toml = "*"
