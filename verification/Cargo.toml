[package]
name = "pages"
version = "0.1.0"
edition = "2021"
publish = false

[dependencies]
actix-web = { version = "4", default-features = false }
async-trait = "0.1"
chrono = { version = "0.4", features = ["serde"] }
diesel = { version = "1.4", features = ["postgres", "chrono"] }
handlebars = "4"
serde = { version = "1", features = ["derive"] }
serde_json = "1"
