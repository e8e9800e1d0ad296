[package]
name = "auxn"
version = "0.1.0"
edition = "2021"
publish = false

[dependencies]
arrayvec = "=0.7.8"
atomic_float = "=1.1.0"
egui = "=0.34.3"
egui_memory_editor = "=0.2.16"
nih_plug_egui = "=0.1.2"
