[package]
name = "key_server_migration"
version = "0.1.0"
edition = "2021"
publish = false

[dependencies]
ethcore-bigint = "=0.2.1"
log = "0.4"
parking_lot = "=0.4.8"
