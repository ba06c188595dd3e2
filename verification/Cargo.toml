[package]
name = "perseus_driver"
version = "0.1.0"
edition = "2021"
publish = false

[dependencies]
clap = { version = "=4.6.7", features = ["derive"] }
command-group = "=2.1.0"
ctrlc = { version = "=3.5.2", features = ["termination"] }
directories = "=4.0.1"
fmterr = "=0.1.1"
indicatif = "=0.17.11"
notify = "=5.2.0"
tokio = { version = "=1.54.1", features = ["macros", "rt-multi-thread"] }
walkdir = "=2.5.0"
