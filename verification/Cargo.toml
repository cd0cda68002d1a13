[package]
name = "lending_grader"
version = "0.1.0"
edition = "2021"
publish = false

[dependencies]
mollusk-svm = "=0.13.4"
mollusk-svm-programs-token = "=0.13.4"
serde = "=1.0.229"
serde_json = "=1.0.151"
sha2 = "=0.10.9"
solana-account = "=3.4.0"
solana-instruction = "=3.3.0"
solana-pubkey = "=4.1.0"
solana-system-program = "=4.0.0"
