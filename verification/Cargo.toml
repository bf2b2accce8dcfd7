[package]
name = "dart"
version = "0.1.0"
edition = "2021"
publish = false

[dependencies]
dart-sys = "=2.0.1"
lazy_static = "=1.4.0"
mashup = "0.1"
