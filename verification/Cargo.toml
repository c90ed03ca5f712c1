[package]
name = "graphql_client_codegen"
version = "0.1.0"
edition = "2021"
publish = false

[dependencies]
graphql-parser = "0.2"
heck = "0.3"
syn = "1"
