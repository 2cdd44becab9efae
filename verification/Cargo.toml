[package]
name = "blind_sig_demo"
version = "0.1.0"
edition = "2021"
publish = false

[dependencies]
schnorr_fun = { version = "*", features = ["serde"] }
sha2 = "0.10"
rand = "0.8"
hex = "0.4"
bech32 = "0.11"
serde = { version = "1", features = ["derive"] }
serde_json = "1"
rocket = { version = "0.5", features = ["json"] }
rocket_db_pools = { version = "0.2", features = ["sqlx_sqlite"] }
wasm-bindgen = "0.2"
web-sys = { version = "0.3", features = ["Window", "Document", "Element", "HtmlElement", "HtmlButtonElement", "HtmlInputElement", "WebSocket", "console", "Event", "EventTarget", "Node"] }
gloo = { version = "0.11", default-features = false, features = ["events"] }
