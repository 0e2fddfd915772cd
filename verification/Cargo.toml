[package]
name = "gta_mod_manager"
version = "0.1.0"
edition = "2021"
publish = false

[dependencies]
serde = { version = "=1.0.229", features = ["derive"] }
regex = "=1.13.1"
walkdir = "=2.5.0"
zip = { version = "=9.2.2", default-features = false, features = ["deflate"] }
md5 = "=0.8.1"
fs_extra = "=1.3.0"
xmltree = { version = "=0.12.0", features = ["attribute-sorted"] }
winreg = "=0.56.0"
