[package]
name = "jorik-cli"
version = "0.1.0"
edition = "2021"
publish = false

[dependencies]
anyhow = "=1.0.104"
atty = "=0.2.14"
base64 = "=0.23.1"
colored = "=3.1.1"
icy_sixel = "=0.7.0"
image = { version = "=0.25.10", default-features = false, features = ["png"] }
ratatui = "=0.30.2"
ratatui-image = { version = "=11.1.0", default-features = false, features = ["crossterm"] }
terminal_size = "=0.4.4"
