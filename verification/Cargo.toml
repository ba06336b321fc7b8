[package]
name = "project_cleaner"
version = "0.1.0"
edition = "2021"
publish = false

[dependencies]
clap = { version = "4", features = ["derive"] }
directories = "*"
file-id = "*"
ignore = "0.4"
jwalk = "0.8"
ratatui = "*"
regex = "1"
size = "*"
throbber-widgets-tui = "*"
tracing = "0.1"
tracing-error = "0.2"
tracing-subscriber = { version = "0.3", features = ["env-filter"] }
tui-scrollview = "*"
unicode-segmentation = "1"
