[package]
name = "docsort"
version = "0.1.0"
edition = "2021"
publish = false

[dependencies]
single-instance = "*"
clap = { version = "4", features = ["derive"] }
confy = "*"
ctrlc = "3"
flexi_logger = "*"
log = "0.4"
notify = "*"
notify-debouncer-full = "*"
serde = { version = "1", features = ["derive"] }
thiserror = "*"
winreg = "*"
