//! Usage hints of a buffer upload.

use vstd::prelude::*;

verus! {

/// Usage hint handed to the driver with a buffer upload: how often the data
/// changes (stream, static, dynamic) and who reads it (draw, read, copy).
#[derive(Debug, Clone, Copy, PartialEq, Eq, Structural)]
pub enum DrawMode {
    StreamDraw,
    StreamRead,
    StreamCopy,
    StaticDraw,
    StaticRead,
    StaticCopy,
    DynamicDraw,
    DynamicRead,
    DynamicCopy,
}

} // verus!
