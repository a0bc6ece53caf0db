[package]
name = "antilysis"
version = "0.1.0"
edition = "2021"
publish = false

[dependencies]
sysinfo = "0.30"
ntp = "*"
rdev = "*"
ntapi = "*"
winapi = { version = "0.3", features = ["debugapi", "fileapi", "handleapi", "iphlpapi", "iptypes", "minwindef", "ntdef", "processthreadsapi", "winnt", "ws2def"] }
