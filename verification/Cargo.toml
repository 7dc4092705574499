[package]
name = "file_path_from_id"
version = "0.1.0"
edition = "2021"
publish = false

[dependencies]
file-id = "*"
windows-sys = { version = "*", features = ["Win32_Foundation", "Win32_Security", "Win32_Storage_FileSystem"] }
