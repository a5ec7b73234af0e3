[package]
name = "fib_stark"
version = "0.1.0"
edition = "2021"
publish = false

[dependencies]
p3-air = "=0.8.0"
p3-baby-bear = "=0.8.0"
p3-blake3-air = "=0.8.0"
p3-challenger = "=0.8.0"
p3-circle = "=0.8.0"
p3-commit = "=0.8.0"
p3-dft = "=0.8.0"
p3-field = "=0.8.0"
p3-fri = "=0.8.0"
p3-goldilocks = "=0.8.0"
p3-keccak = "=0.8.0"
p3-keccak-air = "=0.8.0"
p3-koala-bear = "=0.8.0"
p3-matrix = "=0.8.0"
p3-merkle-tree = "=0.8.0"
p3-mersenne-31 = "=0.8.0"
p3-monty-31 = "=0.8.0"
p3-poseidon2 = "=0.8.0"
p3-poseidon2-air = "=0.8.0"
p3-symmetric = "=0.8.0"
p3-uni-stark = "=0.8.0"
p3-util = "=0.8.0"
rand = "=0.10.3"
miden-core = "=0.23.5"
miden-processor = "=0.23.5"
wasm-bindgen = "=0.2.129"
web-sys = { version = "=0.3.106", features = ["console"] }
console_error_panic_hook = "=0.1.7"
bincode = { version = "=2.0.1", features = ["serde"] }
