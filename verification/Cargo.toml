[package]
name = "jetbrains_toolbox_updater"
version = "0.1.0"
edition = "2021"
publish = false

[dependencies]
serde_json = "*"
dirs = "*"
freedesktop-desktop-entry = "*"
log = "*"
sysinfo = "*"
