[package]
name = "lunar"
version = "0.1.0"
edition = "2021"
publish = false

[dependencies]
bevy = { version = "=0.15.3", default-features = false, features = ["bevy_asset", "bevy_core_pipeline", "bevy_render", "bevy_sprite", "bevy_text", "bevy_gizmos", "bevy_window", "default_font", "png", "multi_threaded"] }
glam = "=0.29.3"
rand = "=0.8.5"
wasm-bindgen = "=0.2.130"
js-sys = "=0.3.107"
web-sys = { version = "=0.3.107", features = ["Window"] }
console_error_panic_hook = "0.1"
