[package]
name = "virtio_iommu"
version = "0.1.0"
edition = "2021"
publish = false

[dependencies]
epoll = "4"
libc = "0.2"
log = "0.4"
vm-memory = { version = "0.2", features = ["backend-mmap"] }
vmm-sys-util = "*"
