[package]
name = "winrt_toast_reborn"
version = "0.1.0"
edition = "2021"
publish = false

[dependencies]
url = "*"
windows = { version = "*", features = ["Data_Xml_Dom", "Foundation", "Foundation_Collections", "Globalization", "UI_Notifications"] }
winreg = "*"
