[package]
name = "motor_pid"
version = "0.1.0"
edition = "2021"
publish = false

[dependencies]
ringbuffer = "=0.16.0"
anyhow = "=1.0.104"
rppal = "=0.22.1"
tokio = { version = "=1.53.2", features = ["full"] }
tokio-modbus = { version = "=0.17.0", features = ["tcp-server"] }
tokio-stream = "=0.1.19"
tokio-timerfd = "=0.2.0"
