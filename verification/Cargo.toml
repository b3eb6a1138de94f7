[package]
name = "gtk_qq"
version = "0.1.0"
edition = "2021"
publish = false

[dependencies]
relm4 = { version = "*", features = ["libadwaita"] }
tokio = { version = "1", features = ["rt"] }
rusqlite = { version = "*", features = ["bundled"] }
