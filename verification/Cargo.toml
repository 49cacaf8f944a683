[package]
name = "jj_session"
version = "0.1.0"
edition = "2021"
publish = false

[dependencies]
jj-lib = "=0.14.0"
indexmap = "=2.14.2"
itertools = "=0.12.1"
clap = { version = "=4.6.7", features = ["derive"] }
config = { version = "=0.13.4", default-features = false, features = ["toml"] }
toml_edit = "=0.19.15"
thiserror = "=1.0.69"
tracing = "=0.1.44"
tracing-subscriber = { version = "=0.3.23", features = ["env-filter"] }
tracing-chrome = "=0.7.2"
once_cell = "=1.21.4"
tempfile = "=3.27.0"
git2 = "=0.18.3"
gix = { version = "=0.56.0", default-features = false }
