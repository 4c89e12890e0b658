[package]
name = "tree_crasher"
version = "0.1.0"
edition = "2021"
publish = false

[dependencies]
anyhow = "=1.0.104"
clap = { version = "=4.6.7", features = ["derive"] }
clap-verbosity-flag = "=2.2.3"
num_cpus = "=1.17.0"
radamsa-sys = "=0.1.0"
rand = "=0.8.8"
regex = "=1.13.1"
tree-sitter = "=0.25.10"
tree-splicer = "=0.7.0"
treereduce = "=0.4.1"
uuid = { version = "=1.29.0", features = ["v4"] }

[dev-dependencies]
tree-sitter-json = "*"
