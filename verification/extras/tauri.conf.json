{
  "$schema": "https://schema.tauri.app/config/2",
  "productName": "Wave OS Shell",
  "version": "1.0.0",
  "identifier": "com.oswave.shell",
  "app": {
    "windows": [
      {
        "label": "wave-os",
        "url": "https://app.oswave.io",
        "title": "Wave OS",
        "width": 1920,
        "height": 1080,
        "maximized": true,
        "decorations": false,
        "resizable": true,
        "fullscreen": false
      }
    ]
  },
  "bundle": {
    "active": true,
    "targets": ["msi", "nsis"]
  }
}
