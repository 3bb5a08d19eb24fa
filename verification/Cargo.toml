[package]
name = "cairo-lint-core"
version = "0.1.0"
edition = "2021"
publish = false

[dependencies]
cairo-lang-defs = "=2.7.0"
cairo-lang-diagnostics = "=2.7.0"
cairo-lang-semantic = "=2.7.0"
cairo-lang-syntax = "=2.7.0"

[dev-dependencies]
cairo-lang-compiler = "=2.7.0"
cairo-lang-filesystem = "=2.7.0"
cairo-lang-parser = "=2.7.0"
cairo-lang-utils = "=2.7.0"
