[package]
name = "ecs_physics"
version = "0.1.0"
edition = "2021"
publish = false

[dependencies]
amethyst_core = "0.5"
nalgebra = "=0.29.0"
ncollide3d = "=0.32.0"
nphysics3d = "=0.24.0"
shrev = "1.0"
specs = "0.14"
