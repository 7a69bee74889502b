[package]
name = "chat_router"
version = "0.1.0"
edition = "2021"
publish = false

[dependencies]
airkorea = "*"
daumdic = "*"
daummap = "*"
futures = "0.1"
