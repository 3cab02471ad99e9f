[package]
name = "comment_tally"
version = "0.1.0"
edition = "2021"
publish = false

[dependencies]
regex = "1"
serde_json = "1"
tqdm = "*"
