[package]
name = "looter_client"
version = "0.1.0"
edition = "2021"
publish = false

[dependencies]
sha3 = "=0.12.0"
wasm-bindgen = "=0.2.129"
js-sys = "=0.3.106"
console_error_panic_hook = "=0.1.7"

[dependencies.web-sys]
version = "=0.3.106"
features = [
    "BinaryType",
    "Window",
    "Document",
    "Element",
    "HtmlElement",
    "HtmlCanvasElement",
    "HtmlInputElement",
    "HtmlImageElement",
    "MouseEvent",
    "KeyboardEvent",
    "MessageEvent",
    "ErrorEvent",
    "WebSocket",
    "Blob",
    "FileReader",
    "WebGlRenderingContext",
    "WebGlProgram",
    "WebGlShader",
    "WebGlBuffer",
    "WebGlTexture",
    "WebGlUniformLocation",
    "Location",
    "Node",
    "EventTarget",
    "console",
]
