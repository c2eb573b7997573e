[package]
name = "no_self_assign"
version = "0.1.0"
edition = "2021"
publish = false

[dependencies]
biome_console = "=0.5.7"
biome_diagnostics = "=0.5.7"
biome_js_syntax = "=0.5.7"
biome_rowan = "=0.5.7"
