[package]
name = "bgtop"
version = "0.1.0"
edition = "2021"
publish = false

[dependencies]
chrono = "*"
ctrlc = "*"
exitfailure = "*"
failure = "*"
reqwest = { version = "*", features = ["blocking"] }
rusqlite = { version = "*", features = ["bundled"] }
select = "*"
serde = "*"
serde_derive = "*"
serde_json = "*"
structopt = "*"
termcolor = "*"
