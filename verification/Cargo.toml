[package]
name = "minimal"
version = "0.1.0"
edition = "2021"
publish = false

[dependencies]
wasm-bindgen = "*"
web-sys = { version = "*", features = [
    "Attr",
    "CssStyleDeclaration",
    "Document",
    "Element",
    "EventTarget",
    "HtmlElement",
    "HtmlSlotElement",
    "Location",
    "Node",
    "NodeList",
    "Window",
] }
