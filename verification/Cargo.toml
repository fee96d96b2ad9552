[package]
name = "some_global_executor"
version = "0.1.1"
edition = "2021"
publish = false

[dependencies]
atomic-waker = "1"
crossbeam-channel = "0.5"
num_cpus = "1"
some_executor = "*"
wasm_safe_mutex = "*"
wasm_thread = "*"
wasm-bindgen = "0.2"
wasm-bindgen-futures = "0.4"
js-sys = "0.3"
web-sys = { version = "0.3", features = ["Window", "Navigator", "WorkerGlobalScope", "WorkerNavigator"] }
