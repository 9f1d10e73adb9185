[package]
name = "dracula_tasks"
version = "0.1.0"
edition = "2021"
publish = false

[dependencies]
chrono = "=0.4.45"
bigdecimal = "=0.1.2"
serde_json = "=1.0.154"
uuid = "=0.8.2"
diesel = { version = "=1.4.8", default-features = false, features = ["postgres", "chrono", "numeric", "serde_json", "uuidv07", "32-column-tables"] }
sqlx = { version = "=0.6.3", default-features = false, features = ["postgres", "runtime-tokio-rustls", "chrono", "macros"] }
parquet = { version = "=60.1.0", default-features = false }
parquet_derive = "=60.1.0"
rayon = "=1.12.0"
futures-util = "=0.3.34"
async-trait = "=0.1.92"
anyhow = "=1.0.104"
log = "=0.4.35"
