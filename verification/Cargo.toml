[package]
name = "capture-forge"
version = "0.1.0"
edition = "2021"
publish = false

[dependencies]
xxhash-rust = { version = "0.8", features = ["xxh3"] }
serde = { version = "1", features = ["derive"] }
wasm-bindgen = "0.2"
wasm-bindgen-futures = "0.4"
js-sys = "0.3"
oxichrome = "*"
web-sys = { version = "0.3", features = ["Window", "Document", "Element", "HtmlElement", "HtmlSpanElement", "HtmlButtonElement", "HtmlVideoElement", "HtmlMediaElement", "HtmlHeadElement", "KeyboardEvent", "MouseEvent", "Event", "EventTarget", "Node", "ShadowRoot", "ShadowRootInit", "ShadowRootMode", "DomTokenList", "Url", "Blob", "BlobEvent", "MediaRecorder", "MediaRecorderOptions", "MediaStream", "MediaStreamTrack", "AudioContext", "BaseAudioContext", "AudioNode", "MediaStreamAudioSourceNode", "MediaStreamAudioDestinationNode", "MediaDevices", "Navigator", "DisplayMediaStreamConstraints", "MediaStreamConstraints", "Performance", "console"] }

[dev-dependencies]
serde_json = "1"
