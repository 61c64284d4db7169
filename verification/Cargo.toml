[package]
name = "poe_minimizer"
version = "0.1.0"
edition = "2021"
publish = false

[dependencies]
log = "0.4"
simplelog = "*"
rev_lines = "0.2"
widestring = "*"
winapi = { version = "0.3", features = ["winuser", "psapi", "processthreadsapi", "winnt", "winreg", "shellapi", "wingdi", "windef", "minwindef", "winerror", "guiddef"] }
