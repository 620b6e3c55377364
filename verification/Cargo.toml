[package]
name = "jbd_cache"
version = "0.1.0"
edition = "2021"
publish = false

[dependencies]
spin = "=0.9.9"
axlog = "=0.3.0-preview.3"
axdriver = { version = "=0.3.0-preview.3", default-features = false, features = ["bus-mmio", "ramdisk"] }
axconfig = "=0.3.0-preview.3"
aarch64-cpu = "=9.4.0"
tock-registers = "=0.8.1"
memory_addr = "=0.4.1"
page_table_entry = "=0.6.2"
