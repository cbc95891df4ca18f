[package]
name = "quicklook"
version = "0.1.0"
edition = "2021"
publish = false

[dependencies]
urlencoding = "=2.1.3"
serde = { version = "=1.0.229", features = ["derive"] }
serde_json = "=1.0.154"
log = "=0.4.34"
chrono = "=0.4.45"
zip = "=2.6.1"
tar = "=0.4.46"
flate2 = "=1.1.10"
bzip2 = "=0.5.2"
xz2 = "=0.1.7"
sevenz-rust = "=0.6.1"
calamine = "=0.37.0"
csv = "=1.4.0"
docx-rs = "=0.4.22"
lofty = "=0.25.4"
psd = "=0.3.5"
image = { version = "=0.25.10", default-features = false, features = ["png"] }
windows = { version = "0.62", features = ["Win32_Foundation", "Win32_Graphics_Gdi", "Win32_System_Com", "Win32_System_Ole", "Win32_System_SystemServices", "Win32_System_Variant", "Win32_UI_Accessibility", "Win32_UI_Input_KeyboardAndMouse", "Win32_UI_Shell", "Win32_UI_Shell_Common", "Win32_UI_WindowsAndMessaging"] }
