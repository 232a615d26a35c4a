[package]
name = "auto_spell_checker"
version = "0.2.0"
edition = "2021"
publish = false

[dependencies]
reqwest = { version = "0.12", default-features = false, features = ["rustls-tls"] }
tokio = { version = "1", features = ["full"] }
futures = "0.3"
serde_json = "1"
regex = "1"
notify-rust = "4"
clipboard-win = "5"
inputbot = "*"
tray-item = "*"
open = "5"
sysinfo = "*"
windows = { version = "*", features = ["Win32_Foundation", "Win32_System_Diagnostics_ToolHelp", "Win32_System_Threading"] }
windows-sys = { version = "*", features = ["Win32_Foundation", "Win32_UI_Shell", "Win32_System_Com"] }
dotenv = "0.15"
aws-config = "1"
aws-sdk-s3 = "1"
rusoto_core = { version = "*", default-features = false, features = ["rustls"] }
rusoto_s3 = { version = "*", default-features = false, features = ["rustls"] }
