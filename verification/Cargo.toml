[package]
name = "atlas_payroll"
version = "0.1.0"
edition = "2021"
publish = false

[dependencies]
solana-program = "2.3.0"
anchor-lang = "0.32.1"
anchor-spl = { version = "0.32.1", default-features = false, features = ["token", "token_2022", "associated_token"] }
bytemuck = { version = "1.20.0", features = ["min_const_generics"] }
