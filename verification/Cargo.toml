[package]
name = "ldtstore_codegen"
version = "0.1.0"
edition = "2021"
publish = false

[dependencies]
argh = "=0.1.19"
concat-string = "=1.0.1"
indexmap = "=2.14.2"
parcel_css = "=1.0.0-alpha.32"
# Held back for parcel_css, which asks for 0.24.5 or later and does not
# compile against the later ones: they lack `Selector::from_vec2`.
parcel_selectors = "=0.24.5"
serde_yaml = "=0.9.34"
