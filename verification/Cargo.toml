[package]
name = "sparreal_kernel"
version = "0.1.0"
edition = "2021"
publish = false

[dependencies]
aarch64-cpu = "=11.2.0"
tock-registers = "=0.10.1"
memory_addr = "=0.4.1"
page-table-generic = "=0.3.0"
fdt-parser = "=0.4.19"
flat_device_tree = "=3.1.1"
spin = "=0.12.3"
log = "=0.4.34"
serde = { version = "=1.0.229", features = ["derive"] }
toml = "=1.1.8"
arm-gic-driver = "=0.18.1"
