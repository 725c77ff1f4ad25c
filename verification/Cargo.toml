[package]
name = "assistant_cli"
version = "0.1.0"
edition = "2021"
publish = false

[dependencies]
base64 = "0.22"
ftui-core = "0.1"
ftui-extras = { version = "0.1", features = ["forms", "markdown"] }
ftui-layout = "0.1"
ftui-render = "0.1"
ftui-runtime = "0.1"
ftui-style = "0.1"
ftui-widgets = "0.1"
serde = { version = "1", features = ["derive"] }
serde_json = "1"
tungstenite = { version = "0.24", features = ["url"] }
url = "2"
