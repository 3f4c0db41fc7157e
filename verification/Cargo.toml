[package]
name = "uda"
version = "0.1.0"
edition = "2021"
publish = false

[dependencies]
async-trait = "0.1"
bitflags = "2"
log = "0.4"
thiserror = "1"
tokio = { version = "1", features = ["rt", "rt-multi-thread", "macros", "time"] }
zbus = { version = "4", default-features = false, features = ["tokio"] }
zvariant = "4.2"
windows = { version = "0.58", features = ["Data_Xml_Dom", "UI_Notifications", "Win32_Foundation", "Win32_Graphics_Gdi", "Win32_Security", "Win32_System_LibraryLoader", "Win32_System_Power", "Win32_System_Registry", "Win32_System_SystemInformation", "Win32_UI_Shell", "Win32_UI_WindowsAndMessaging"] }
