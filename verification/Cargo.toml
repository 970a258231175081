[package]
name = "zotero_mcp_rs"
version = "0.1.0"
edition = "2021"
publish = false

[dependencies]
url = "*"
serde = { version = "*", features = ["derive"] }
serde_json = "*"
pdf-extract = "*"
lopdf = "*"
reqwest = { version = "*", default-features = false, features = ["json"] }
tokio = { version = "*", features = ["rt-multi-thread", "macros", "time", "fs"] }
sqlx = { version = "*", default-features = false, features = ["sqlite", "runtime-tokio"] }
rmcp = { version = "*", features = ["server", "macros"] }
schemars = "*"

[dev-dependencies]
tempfile = "*"
