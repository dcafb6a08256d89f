[package]
name = "db_snap"
version = "0.1.0"
edition = "2021"
publish = false

[dependencies]
roaring = "*"
md5 = "*"
insta = "*"
heed = "*"
