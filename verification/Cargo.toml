[package]
name = "logical_properties"
version = "0.1.0"
edition = "2021"
publish = false

[dependencies]
biome_analyze = "=0.5.7"
biome_console = "=0.5.7"
biome_css_factory = "=0.5.7"
biome_css_syntax = "=0.5.7"
biome_diagnostics = "=0.5.7"
biome_rowan = "=0.5.7"
