[package]
name = "gerrit_upload"
version = "0.1.0"
edition = "2021"
publish = false

[dependencies]
bstr = "=1.13.1"
clap = { version = "=4.6.7", features = ["derive"] }
gix = { version = "=0.73.0", default-features = false }
indexmap = "=2.14.2"
itertools = "=0.14.0"
jj-lib = "=0.34.0"
kstring = "=2.0.2"
scm-record = "=0.8.0"
tracing = "=0.1.44"
