[package]
name = "akafugu_twidisplay"
version = "0.1.0"
edition = "2021"

[dependencies]
embedded-hal = "0.2"
