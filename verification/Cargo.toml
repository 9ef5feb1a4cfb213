[package]
name = "gg_os"
version = "0.1.0"
edition = "2021"
publish = false

[dependencies]
bitflags = "=2.13.2"
cpuio = "=0.3.0"
lazy_static = "=1.5.1"
linked_list_allocator = "=0.10.6"
multiboot2 = "=0.28.0"
once = "=0.3.4"
pic8259_simple = "=0.2.0"
rlibc = "=1.0.0"
spin = "=0.12.3"
uart_16550 = "=0.8.1"
volatile = "=0.6.1"

[dependencies.x86_64]
version = "=0.15.5"
default-features = false
features = ["instructions"]
