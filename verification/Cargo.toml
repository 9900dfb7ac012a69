[package]
name = "electron_hook"
version = "0.1.0"
edition = "2021"
publish = false

[dependencies]
asar = "*"
ctor = "*"
dirs = "*"
libc = "0.2"
retour = "*"
serde_json = "1"
uuid = { version = "1", features = ["v4"] }
widestring = "1"
winapi = { version = "0.3", features = ["fileapi", "handleapi", "libloaderapi", "minwinbase", "minwindef", "processthreadsapi", "winbase", "winnt", "winuser"] }
