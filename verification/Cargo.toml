[package]
name = "element_maybe_signal"
version = "0.1.0"
edition = "2021"
publish = false

[dependencies]
leptos = "=0.6.15"
web-sys = { version = "=0.3.106", features = ["Document", "Element", "EventTarget", "HtmlElement", "Window"] }
