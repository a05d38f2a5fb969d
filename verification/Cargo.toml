[package]
name = "agama-hackweek-ancor"
version = "0.1.0"
edition = "2021"
publish = false

[dependencies]
futures = "0.3"
tui-realm-stdlib = "1"
tuirealm = "1"
zbus = "5"
