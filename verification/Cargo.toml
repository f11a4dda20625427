[package]
name = "ace_gl_types"
version = "0.1.0"
edition = "2021"
publish = false

[dependencies]
image = { version = "=0.25.10", default-features = false, features = ["jpeg", "png"] }
nalgebra = "=0.35.0"
nalgebra-glm = "=0.21.0"
glfw = "=0.63.0"
# The entry points of the driver. Only app/ calls them; the library reaches
# the driver through its own `Driver` trait and names no binding.
gl = "=0.14.0"
tobj = "=4.0.5"
thiserror = "=2.0.21"
