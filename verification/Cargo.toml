[package]
name = "jsx_syntax"
version = "0.1.0"
edition = "2021"
publish = false

[dependencies]
biome_rowan = "=0.5.7"
biome_analyze = "=0.5.7"
biome_console = "=0.5.7"
biome_diagnostics = "=0.5.7"
biome_text_edit = "=0.5.7"
biome_text_size = "=0.5.7"
