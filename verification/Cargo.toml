[package]
name = "scrimshady"
version = "0.1.0"
edition = "2021"
publish = false

[dependencies]
time = { version = "=0.3.55", features = ["formatting", "local-offset", "parsing"] }
windows = { version = "0.59", features = ["Win32_Foundation", "Win32_Graphics_Direct3D", "Win32_Graphics_Direct3D_Fxc", "Win32_Graphics_Direct3D11", "Win32_Graphics_Dxgi", "Win32_Graphics_Dxgi_Common", "Win32_Graphics_Gdi", "Win32_Graphics_Imaging", "Win32_System_Com", "Win32_System_LibraryLoader", "Win32_UI_HiDpi", "Win32_UI_Shell", "Win32_UI_WindowsAndMessaging"] }
