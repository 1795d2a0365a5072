[package]
name = "hatena_blog_api"
version = "0.3.0"
edition = "2021"
publish = false

[dependencies]
atom_syndication = "0.11"
quick-xml = "0.22"
reqwest = { version = "0.12", default-features = false }
thiserror = "1"
urlencoding = "2"
