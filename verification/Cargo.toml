[package]
name = "stm32f207-hal"
version = "0.1.0"
edition = "2021"
publish = false

[dependencies]
alloc-cortex-m = "=0.4.4"
cortex-m = "=0.7.9"
cortex-m-rt = "=0.7.7"
cortex-m-semihosting = "=0.5.0"
cstr_core = "=0.2.6"
embedded-hal = "=0.2.7"
nb = "=1.1.0"
panic-halt = "=0.2.0"
paste = "=1.0.15"
smoltcp = { version = "=0.8.2", default-features = false, features = ["medium-ethernet", "proto-ipv4", "socket-raw"] }
stm32f2 = { version = "=0.15.1", features = ["stm32f217"] }
vcell = "=0.1.3"
void = { version = "=1.0.2", default-features = false }
