[package]
name = "borrowed_with_owner"
version = "0.1.0"
edition = "2021"

[dependencies]
stable_deref_trait = "1.2"
