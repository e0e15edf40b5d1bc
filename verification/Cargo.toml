[package]
name = "clip_engine"
version = "0.1.0"
edition = "2021"
publish = false

[dependencies]
helgoboss-midi = "*"
wildmatch = "*"
indexmap = "*"
itertools = "*"
lexical-sort = "*"
hex = "*"
semver = "*"
