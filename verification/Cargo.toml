[package]
name = "etoalium"
version = "0.1.0"
edition = "2021"
publish = false

[dependencies]
catppuccin = "=1.4.0"
chrono = "=0.4.45"
hsluv = "=0.3.1"
web-sys = { version = "=0.3.106", features = ["CanvasRenderingContext2d", "HtmlCanvasElement", "SvgsvgElement"] }
