[package]
name = "tipsy"
version = "0.1.0"
edition = "2021"
publish = false

[dependencies]
dirs = "*"
futures = "0.3"
futures-util = "0.3"
libc = "0.2"
tokio = { version = "1", features = ["net", "time", "io-util", "rt"] }
tracing = "0.1"
windows-sys = { version = "*", features = ["Win32_Foundation", "Win32_Security", "Win32_Security_Authorization", "Win32_System_Memory", "Win32_System_SystemServices"] }
