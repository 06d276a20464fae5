[package]
name = "html_to_image"
version = "0.1.0"
edition = "2021"
publish = false

[dependencies]
minijinja = "=2.24.0"
serde = "=1.0.229"
serde_json = "=1.0.151"
image = { version = "0.25", default-features = false, features = ["png"] }
parley = "=0.6.0"
blitz-dom = { version = "=0.2.4", default-features = false }
blitz-html = { version = "=0.2.0", default-features = false }
blitz-paint = { version = "=0.2.1", default-features = false }
anyrender = "=0.6.2"
anyrender_vello_cpu = "=0.7.0"
linebender_resource_handle = "*"
