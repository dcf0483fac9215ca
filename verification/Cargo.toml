[package]
name = "colony"
version = "0.1.0"
edition = "2021"
publish = false

[dependencies]
screeps-game-api = "=0.23.5"
wasm-bindgen = "=0.2.129"
js-sys = "=0.3.106"
log = "=0.4.34"
fern = "=0.7.1"
