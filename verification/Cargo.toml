[package]
name = "token_lottery"
version = "0.1.0"
edition = "2021"
publish = false

[dependencies]
anchor-lang = { version = "=0.31.2", features = ["init-if-needed"] }
anchor-spl = { version = "=0.31.2", features = ["metadata"] }
bytemuck = "=1.25.2"
switchboard-on-demand = "=0.13.0"
