[package]
name = "screen_share"
version = "0.1.0"
edition = "2021"
publish = false

[dependencies]
interprocess = "=2.4.7"
png = "=0.18.1"
sysinfo = "=0.40.1"

[dependencies.windows-sys]
version = "=0.61.2"
features = [
    "Win32_Foundation",
    "Win32_Graphics_Dwm",
    "Win32_Security",
    "Win32_Storage_FileSystem",
    "Win32_System_Console",
    "Win32_System_Diagnostics_Debug",
    "Win32_System_IO",
    "Win32_System_LibraryLoader",
    "Win32_System_Memory",
    "Win32_System_ProcessStatus",
    "Win32_System_Threading",
    "Win32_System_WindowsProgramming",
    "Win32_UI_Input_KeyboardAndMouse",
    "Win32_UI_WindowsAndMessaging",
]
