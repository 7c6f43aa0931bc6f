[package]
name = "zbus_core"
version = "0.1.0"
edition = "2021"
publish = false

[dependencies]
slotmap = "*"
once_cell = "*"
async-broadcast = "*"
async-channel = "*"
async-executor = "*"
async-io = "*"
async-lock = "*"
async-task = "*"
event-listener = "*"
futures-core = "*"
futures-sink = "*"
futures-util = "*"
ordered-stream = "*"
