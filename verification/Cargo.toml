[package]
name = "typer"
version = "0.1.0"
edition = "2021"
publish = false

[dependencies]
clap = "=3.2.25"
crossbeam = "=0.8.5"
crossterm = "=0.22.1"
lipsum = "=0.8.2"
log = "=0.4.34"
tui = "=0.17.0"
