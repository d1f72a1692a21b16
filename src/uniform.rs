use vstd::prelude::*;
use crate::frame_state::FrameState;
use crate::surface::SurfaceSizing;

verus! {

/// Size in bytes of the uniform block as the shaders lay it out:
/// resolution, time, frame, mouse and two words of padding.
pub const UNIFORM_BLOCK_SIZE: usize = 32;

/// Milliseconds that a frame delta contributes: a negative delta counts as none.
pub open spec fn elapsed_ms(delta_ms: i64) -> u64 {
    if delta_ms < 0 { 0 } else { delta_ms as u64 }
}

/// Time after adding a frame delta, saturating at the largest `u64`.
pub open spec fn advanced_time(time_ms: u64, delta_ms: i64) -> u64 {
    if time_ms + elapsed_ms(delta_ms) <= u64::MAX {
        (time_ms + elapsed_ms(delta_ms)) as u64
    } else {
        u64::MAX
    }
}

/// The frame counter after one more frame, wrapping at the end of `i32`.
pub open spec fn next_frame(frame: i32) -> i32 {
    if frame == i32::MAX { i32::MIN } else { (frame + 1) as i32 }
}

/// Per-frame data handed to the shaders, held as exact integers: the
/// surface resolution in physical pixels, the accumulated time in
/// milliseconds, the number of frames rendered and the pointer position.
#[derive(Clone, Copy, Debug, PartialEq, Eq)]
pub struct Uniform {
    pub resolution: (u32, u32),
    pub time_ms: u64,
    pub frame: i32,
    pub mouse: (i32, i32),
}

impl Uniform {
    /// The block after one frame that took `delta_ms` milliseconds.
    pub open spec fn updated(self, sizing: SurfaceSizing, delta_ms: i64, state: FrameState) -> Uniform {
        Uniform {
            resolution: (sizing.width, sizing.height),
            time_ms: advanced_time(self.time_ms, delta_ms),
            frame: next_frame(self.frame),
            mouse: state.pointer,
        }
    }

    /// The block before the first frame: everything zero.
    pub fn new() -> (r: Uniform)
        ensures
            r == (Uniform { resolution: (0u32, 0u32), time_ms: 0, frame: 0, mouse: (0i32, 0i32) }),
    {
        Uniform { resolution: (0, 0), time_ms: 0, frame: 0, mouse: (0, 0) }
    }

    /// Refreshes the block for the next frame: resolution from the surface
    /// configuration, time advanced by the elapsed delta, frame counter
    /// incremented, mouse from the shared pointer position.
    pub fn update(&mut self, sizing: &SurfaceSizing, delta_ms: i64, state: &FrameState)
        ensures
            *final(self) == old(self).updated(*sizing, delta_ms, *state),
            final(self).time_ms >= old(self).time_ms,
    {
        let elapsed: u64 = if delta_ms < 0 { 0 } else { delta_ms as u64 };
        let time_ms: u64 = if self.time_ms <= u64::MAX - elapsed {
            self.time_ms + elapsed
        } else {
            u64::MAX
        };
        let frame: i32 = if self.frame == i32::MAX { i32::MIN } else { self.frame + 1 };
        self.resolution = (sizing.width, sizing.height);
        self.time_ms = time_ms;
        self.frame = frame;
        self.mouse = state.pointer;
    }
}

/// The block after one frame for each delta in `deltas`, first to last, with
/// the surface and shared state unchanged meanwhile.
pub open spec fn updated_all(u: Uniform, sizing: SurfaceSizing, state: FrameState, deltas: Seq<i64>) -> Uniform
    decreases deltas.len(),
{
    if deltas.len() == 0 {
        u
    } else {
        updated_all(
            u.updated(sizing, deltas[0], state),
            sizing,
            state,
            deltas.subrange(1, deltas.len() as int),
        )
    }
}

/// Total milliseconds that the frame deltas contribute.
pub open spec fn total_elapsed(deltas: Seq<i64>) -> int
    decreases deltas.len(),
{
    if deltas.len() == 0 {
        0
    } else {
        elapsed_ms(deltas[0]) + total_elapsed(deltas.subrange(1, deltas.len() as int))
    }
}

/// Over consecutive frames the time never goes back, and it grows by exactly
/// the sum of the elapsed deltas as long as that sum fits.
pub proof fn lemma_time_accumulates(u: Uniform, sizing: SurfaceSizing, state: FrameState, deltas: Seq<i64>)
    ensures
        updated_all(u, sizing, state, deltas).time_ms >= u.time_ms,
        u.time_ms + total_elapsed(deltas) <= u64::MAX ==> updated_all(u, sizing, state, deltas).time_ms
            == u.time_ms + total_elapsed(deltas),
    decreases deltas.len(),
{
    if deltas.len() > 0 {
        let rest = deltas.subrange(1, deltas.len() as int);
        lemma_total_elapsed_nonnegative(rest);
        lemma_time_accumulates(u.updated(sizing, deltas[0], state), sizing, state, rest);
    }
}

/// The elapsed total of any deltas is not negative.
proof fn lemma_total_elapsed_nonnegative(deltas: Seq<i64>)
    ensures
        total_elapsed(deltas) >= 0,
    decreases deltas.len(),
{
    if deltas.len() > 0 {
        lemma_total_elapsed_nonnegative(deltas.subrange(1, deltas.len() as int));
    }
}

/// The frame counter grows by exactly one per frame: starting from a fresh
/// block, after `n` frames it reads `n`, the first frame reading one.
pub proof fn lemma_frame_counts_frames(u: Uniform, sizing: SurfaceSizing, state: FrameState, deltas: Seq<i64>)
    requires
        u.frame + deltas.len() <= i32::MAX,
    ensures
        updated_all(u, sizing, state, deltas).frame == u.frame + deltas.len(),
    decreases deltas.len(),
{
    if deltas.len() > 0 {
        lemma_frame_counts_frames(
            u.updated(sizing, deltas[0], state),
            sizing,
            state,
            deltas.subrange(1, deltas.len() as int),
        );
    }
}

} // verus!
