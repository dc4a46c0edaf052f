[package]
name = "telecontrol"
version = "0.1.0"
edition = "2021"
publish = false

[dependencies]
aes-gcm-siv = "=0.11.1"
base64 = "=0.22.1"
heed = "=0.21.0"
lingua = { version = "=1.8.0", default-features = false, features = ["english", "chinese"] }
regex = "=1.13.1"
urlencoding = "=2.1.3"
teloxide = { version = "=0.17.0", features = ["macros"] }
takecell = "=0.1.1"
genai = "=0.4.4"
tokio = { version = "=1.54.1", features = ["full"] }
futures = "=0.3.34"
async-stream = "=0.3.6"
serde = { version = "=1.0.229", features = ["derive"] }
postcard = { version = "=1.1.3", features = ["alloc"] }
quick-xml = { version = "=0.38.4", features = ["serialize"] }
strum = { version = "=0.27.2", features = ["derive"] }
tempfile = "=3.27.0"
clap = { version = "=4.6.7", features = ["derive"] }
dotenv = "=0.15.0"
pretty_env_logger = "=0.5.0"
log = "=0.4.35"
anyhow = "=1.0.104"
reqwest = "=0.12.28"
