use vstd::prelude::*;

verus! {

/// The raw frame layout accepted during negotiation.
///
/// The sink never interprets the payload; it only needs to know that a
/// layout was agreed before frames arrive. The fields are kept so that the
/// accepted layout can be reported back to whoever drives the sink.
#[derive(Clone, Copy, Debug, PartialEq, Eq, Structural)]
pub struct FrameFormat {
    pub width: u32,
    pub height: u32,
    /// Size in bytes of one complete frame in this layout.
    pub frame_size: u64,
}

impl FrameFormat {
    /// A layout is acceptable when it describes a non-empty picture.
    pub open spec fn valid(self) -> bool {
        self.width > 0 && self.height > 0
    }

    pub fn new(width: u32, height: u32, frame_size: u64) -> (r: FrameFormat)
        ensures
            r.width == width,
            r.height == height,
            r.frame_size == frame_size,
    {
        FrameFormat { width, height, frame_size }
    }

    pub fn is_valid(&self) -> (r: bool)
        ensures
            r == self.valid(),
    {
        self.width > 0 && self.height > 0
    }
}

} // verus!
