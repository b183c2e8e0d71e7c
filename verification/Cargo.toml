[package]
name = "sphn"
version = "0.1.0"
edition = "2021"
publish = false

[dependencies]
anyhow = "1"
byteorder = "1"
numpy = "0.23"
ogg = "0.9"
opus = "0.3"
pyo3 = "0.23"
rand = "0.8"
rayon = "1"
rubato = "0.15"
serde = { version = "1", features = ["derive"] }
serde_json = "1"
symphonia = { version = "0.5", features = ["all"] }
