[package]
name = "retron"
version = "0.1.0"
edition = "2021"
publish = false

[dependencies]
spin = "=0.12.3"
linked_list_allocator = "=0.10.6"
x86_64 = "=0.14.13"
embedded-graphics = "=0.8.2"
