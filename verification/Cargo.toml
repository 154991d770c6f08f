[package]
name = "photo_frame"
version = "0.1.0"
edition = "2021"
publish = false

[dependencies]
kamadak-exif = "=0.6.1"
image = { version = "=0.25.10", default-features = false, features = ["jpeg", "png", "tiff", "bmp", "webp"] }
jpeg-encoder = "=0.7.1"
zune-jpeg = "=0.5.15"
zune-core = "=0.5.3"
serde = { version = "=1.0.229", features = ["derive"] }
thiserror = "=2.0.21"
miette = "=7.6.0"
clap = { version = "=4.6.7", features = ["derive"] }
tracing = "=0.1.44"
tracing-subscriber = { version = "=0.3.23", features = ["env-filter", "json"] }
rayon = "=1.12.0"
num_cpus = "=1.17.0"
indicatif = "=0.18.6"
ab_glyph = "=0.2.32"
imageproc = { version = "=0.27.0", default-features = false, features = ["text"] }
fast_image_resize = { version = "=6.1.0", features = ["image"] }
wasm-bindgen = "=0.2.130"
js-sys = "=0.3.107"
serde-wasm-bindgen = "=0.6.5"
console_error_panic_hook = "=0.1.7"
tracing-wasm = "=0.2.1"

[dev-dependencies]
serde_json = "=1.0.154"
