[package]
name = "zoom-sync"
version = "0.1.0"
edition = "2021"
publish = false

[dependencies]
bpaf = { version = "=0.9.28", features = ["derive"] }
chrono = "=0.4.45"
crc32fast = "=1.5.3"
either = "=1.19.0"
evdev = { version = "=0.12.2", features = ["tokio"] }
futures = "=0.3.34"
gif = "=0.13.3"
hidapi = { version = "=2.6.7", default-features = false, features = ["linux-native-basic-udev"] }
humantime = "=2.4.0"
image = { version = "=0.25.10", default-features = false, features = ["gif", "jpeg", "png", "webp"] }
ipinfo = "=3.5.0"
nvml-wrapper = "=0.13.0"
open-meteo-api = "=0.1.4"
rayon = "=1.12.0"
rgb565 = "=0.1.3"
sysinfo = "=0.39.6"
thiserror = "=1.0.69"
tokio = { version = "=1.54.1", features = ["macros", "rt-multi-thread", "time"] }
tokio-stream = { version = "=0.1.19", features = ["time"] }
