[package]
name = "egui_opengl_internal"
version = "0.1.0"
edition = "2021"
publish = false

[dependencies]
egui = "0.27"
windows = { version = "0.58", features = [
    "Wdk_System_SystemInformation",
    "Win32_Foundation",
    "Win32_Graphics_Gdi",
    "Win32_Graphics_OpenGL",
    "Win32_System_Console",
    "Win32_System_LibraryLoader",
    "Win32_System_SystemServices",
    "Win32_UI_Input_KeyboardAndMouse",
    "Win32_UI_WindowsAndMessaging",
] }
clipboard = "0.5"
gl = "0.14"
once_cell = "1"
parking_lot = "0.12"
retour = "0.3"
