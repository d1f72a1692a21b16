use vstd::prelude::*;

verus! {

/// Canvas width before the host has reported any size.
pub const INITIAL_CANVAS_WIDTH: u32 = 40;

/// Canvas height before the host has reported any size.
pub const INITIAL_CANVAS_HEIGHT: u32 = 30;

/// Size of the smallest side that a canvas is ever given.
pub open spec fn at_least_one(v: u32) -> u32 {
    if v == 0 { 1 } else { v }
}

/// The device pixel ratio as the exact fraction `num / den`: how many
/// physical pixels one logical pixel spans.
#[derive(Clone, Copy, Debug, PartialEq, Eq)]
pub struct PixelRatio {
    pub num: u32,
    pub den: u32,
}

impl PixelRatio {
    /// A ratio is a positive fraction.
    pub open spec fn wf(&self) -> bool {
        self.num >= 1 && self.den >= 1
    }

    /// The ratio `num / den`; `None` unless both are positive.
    pub fn new(num: u32, den: u32) -> (r: Option<PixelRatio>)
        ensures
            r is Some <==> num >= 1 && den >= 1,
            r matches Some(p) ==> p == (PixelRatio { num, den }) && p.wf(),
    {
        if num >= 1 && den >= 1 {
            Some(PixelRatio { num, den })
        } else {
            None
        }
    }
}

/// State shared by the host callbacks and the per-frame callback: the
/// logical canvas size, the device pixel ratio and the pointer position in
/// canvas-local coordinates.
#[derive(Clone, Copy, Debug, PartialEq, Eq)]
pub struct FrameState {
    pub canvas_width: u32,
    pub canvas_height: u32,
    pub pixel_ratio: PixelRatio,
    pub pointer: (i32, i32),
}

impl FrameState {
    /// Both canvas sides are at least one pixel and the ratio is positive.
    pub open spec fn wf(&self) -> bool {
        self.canvas_width >= 1 && self.canvas_height >= 1 && self.pixel_ratio.wf()
    }

    /// The state after a resize event of `w` by `h` logical pixels.
    pub open spec fn resized(self, w: u32, h: u32) -> FrameState {
        FrameState { canvas_width: at_least_one(w), canvas_height: at_least_one(h), ..self }
    }

    /// Fresh state for a display whose pixel ratio is `pixel_ratio`.
    pub fn new(pixel_ratio: PixelRatio) -> (r: FrameState)
        requires
            pixel_ratio.wf(),
        ensures
            r.wf(),
            r.canvas_width == INITIAL_CANVAS_WIDTH,
            r.canvas_height == INITIAL_CANVAS_HEIGHT,
            r.pixel_ratio == pixel_ratio,
            r.pointer == (0i32, 0i32),
    {
        FrameState {
            canvas_width: INITIAL_CANVAS_WIDTH,
            canvas_height: INITIAL_CANVAS_HEIGHT,
            pixel_ratio,
            pointer: (0, 0),
        }
    }

    /// Records a resize event; a zero side is raised to one. Returns whether
    /// the stored size changed.
    pub fn on_resize(&mut self, w: u32, h: u32) -> (changed: bool)
        ensures
            *final(self) == old(self).resized(w, h),
            final(self).canvas_width >= 1 && final(self).canvas_height >= 1,
            changed == (*final(self) != *old(self)),
    {
        let nw: u32 = if w == 0 { 1 } else { w };
        let nh: u32 = if h == 0 { 1 } else { h };
        let changed = nw != self.canvas_width || nh != self.canvas_height;
        self.canvas_width = nw;
        self.canvas_height = nh;
        changed
    }

    /// Records a pointer move to `(x, y)`. Returns whether the stored
    /// position changed.
    pub fn on_pointer_move(&mut self, x: i32, y: i32) -> (changed: bool)
        ensures
            *final(self) == (FrameState { pointer: (x, y), ..*old(self) }),
            changed == (old(self).pointer != (x, y)),
    {
        let changed = self.pointer.0 != x || self.pointer.1 != y;
        self.pointer = (x, y);
        changed
    }
}

} // verus!
