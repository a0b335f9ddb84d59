[package]
name = "apigen_codegen"
version = "0.1.0"
edition = "2021"
publish = false

[dependencies]
convert_case = "=0.6.0"
handlebars = "=6.4.4"
oas3 = "0.4"
serde_json = "=1.0.154"
