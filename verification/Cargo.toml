[package]
name = "schnauzer_ui"
version = "0.1.0"
edition = "2021"
publish = false

[dependencies]
thirtyfour = "*"
tokio = { version = "*", features = ["rt-multi-thread", "macros", "time"] }
webdriver-install = "*"
