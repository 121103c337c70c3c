[package]
name = "flower"
version = "0.1.0"
edition = "2021"
publish = false

[dependencies]
bit_field = "0.10"
crossbeam = "0.8"
arrayvec = "0.7"
either = "1"
spin = "0.9"
x86_64 = "0.15"
volatile = "0.4"
lazy_static = "1"
multiboot2 = "0.23"
acpi = "5"
