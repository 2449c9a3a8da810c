[package]
name = "pdf_summarizer"
version = "0.1.0"
edition = "2021"
publish = false

[dependencies]
anyhow = "=1.0.104"
clap = { version = "=4.6.7", features = ["derive"] }
ollama-rs = { version = "=0.3.6", features = ["stream"] }
pdf-extract = "=0.12.1"
tokio = { version = "=1.53.2", features = ["macros", "rt-multi-thread"] }
tokio-stream = "=0.1.19"
