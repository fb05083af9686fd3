[package]
name = "vyrn"
version = "0.1.0"
edition = "2021"
publish = false

[dependencies]
cranelift-codegen = "0.113"
cranelift-frontend = "0.113"
cranelift-jit = "0.113"
cranelift-module = "0.113"
cranelift-native = "0.113"
cranelift-object = "0.113"
serde_json = "1"
