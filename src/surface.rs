use vstd::prelude::*;
use crate::frame_state::{at_least_one, FrameState, PixelRatio};

verus! {

#[verifier::external_type_specification]
#[verifier::external_body]
pub struct ExTextureFormat(wgpu::TextureFormat);

/// Relies on wgpu's `TextureFormat::is_srgb`: whether the format stores
/// gamma-corrected colour. Nothing is assumed of which formats those are.
pub assume_specification[ wgpu::TextureFormat::is_srgb ](f: &wgpu::TextureFormat) -> bool;

/// `v` logical pixels in physical pixels: multiplied by the exact ratio and
/// truncated afterwards, saturating at the largest `u32`.
pub open spec fn scaled(v: u32, ratio: PixelRatio) -> u32 {
    if v * ratio.num / ratio.den as int <= u32::MAX {
        (v * ratio.num / ratio.den as int) as u32
    } else {
        u32::MAX
    }
}

/// What the surface is configured with, derived from the last canvas size
/// it was reconciled against.
#[derive(Clone, Copy, Debug, PartialEq, Eq)]
pub struct SurfaceSizing {
    /// Logical canvas size (width, height) last applied to the surface.
    pub last_known: (u32, u32),
    /// Configured surface width in physical pixels.
    pub width: u32,
    /// Configured surface height in physical pixels.
    pub height: u32,
}

/// Scales one side of the canvas by the pixel ratio.
fn scale_side(v: u32, ratio: PixelRatio) -> (r: u32)
    requires
        ratio.wf(),
    ensures
        r == scaled(v, ratio),
{
    proof {
        let (a, b) = (v as int, ratio.num as int);
        assert(a * b <= u32::MAX * u32::MAX) by (nonlinear_arith)
            requires
                0 <= a <= u32::MAX,
                0 <= b <= u32::MAX,
        ;
    }
    let p: u64 = v as u64 * ratio.num as u64 / ratio.den as u64;
    if p <= u32::MAX as u64 {
        p as u32
    } else {
        u32::MAX
    }
}

impl SurfaceSizing {
    /// The configured size is the last known size scaled by `ratio`.
    pub open spec fn consistent(&self, ratio: PixelRatio) -> bool {
        &&& self.width == scaled(self.last_known.0, ratio)
        &&& self.height == scaled(self.last_known.1, ratio)
    }

    /// Whether the canvas size in `state` differs from what the surface was
    /// last configured for.
    pub open spec fn needs_reconfigure(self, state: FrameState) -> bool {
        self.last_known != (state.canvas_width, state.canvas_height)
    }

    /// The sizing after reconciling against `state`.
    pub open spec fn reconciled(self, state: FrameState) -> SurfaceSizing {
        if self.needs_reconfigure(state) {
            SurfaceSizing {
                last_known: (state.canvas_width, state.canvas_height),
                width: scaled(state.canvas_width, state.pixel_ratio),
                height: scaled(state.canvas_height, state.pixel_ratio),
            }
        } else {
            self
        }
    }

    /// Initial sizing for a surface created while the shared state is `state`.
    pub fn new(state: &FrameState) -> (r: SurfaceSizing)
        requires
            state.pixel_ratio.wf(),
        ensures
            r.last_known == (state.canvas_width, state.canvas_height),
            r.consistent(state.pixel_ratio),
    {
        SurfaceSizing {
            last_known: (state.canvas_width, state.canvas_height),
            width: scale_side(state.canvas_width, state.pixel_ratio),
            height: scale_side(state.canvas_height, state.pixel_ratio),
        }
    }

    /// Brings the sizing in line with the canvas size in `state`. Returns the
    /// new configured (width, height) when the surface must be reconfigured,
    /// and `None` when the size is unchanged, in which case nothing changes.
    pub fn reconcile(&mut self, state: &FrameState) -> (r: Option<(u32, u32)>)
        requires
            state.pixel_ratio.wf(),
        ensures
            *final(self) == old(self).reconciled(*state),
            r is Some <==> old(self).needs_reconfigure(*state),
            r is Some ==> r == Some((final(self).width, final(self).height)),
            old(self).needs_reconfigure(*state) ==> final(self).consistent(state.pixel_ratio),
    {
        if self.last_known.0 != state.canvas_width || self.last_known.1 != state.canvas_height {
            self.last_known = (state.canvas_width, state.canvas_height);
            self.width = scale_side(state.canvas_width, state.pixel_ratio);
            self.height = scale_side(state.canvas_height, state.pixel_ratio);
            Some((self.width, self.height))
        } else {
            None
        }
    }
}

/// Index of the format to configure a surface with, given for each
/// advertised format whether it is gamma-corrected: the first gamma-corrected
/// one, else the first one; `None` when nothing is advertised.
pub fn preferred_format_index(srgb: &Vec<bool>) -> (r: Option<usize>)
    ensures
        r is None <==> srgb@.len() == 0,
        r matches Some(i) ==> i < srgb@.len() && if srgb@[i as int] {
            forall|j: int| 0 <= j < i ==> !srgb@[j]
        } else {
            i == 0 && forall|j: int| 0 <= j < srgb@.len() ==> !srgb@[j]
        },
{
    let mut k: usize = 0;
    while k < srgb.len()
        invariant
            k <= srgb@.len(),
            forall|j: int| 0 <= j < k ==> !srgb@[j],
        decreases srgb@.len() - k,
    {
        if srgb[k] {
            return Some(k);
        }
        k = k + 1;
    }
    if srgb.len() == 0 {
        None
    } else {
        Some(0)
    }
}

/// The format to configure a surface with among the advertised `formats`:
/// a gamma-corrected one when there is one, else the first. `None` when
/// nothing is advertised.
pub fn surface_format(formats: &Vec<wgpu::TextureFormat>) -> (r: Option<wgpu::TextureFormat>)
    ensures
        r is None <==> formats@.len() == 0,
        r matches Some(f) ==> exists|i: int| 0 <= i < formats@.len() && formats@[i] == f,
{
    let mut srgb: Vec<bool> = Vec::new();
    let mut k: usize = 0;
    while k < formats.len()
        invariant
            k <= formats@.len(),
            srgb@.len() == k,
        decreases formats@.len() - k,
    {
        srgb.push(formats[k].is_srgb());
        k = k + 1;
    }
    match preferred_format_index(&srgb) {
        Some(i) => Some(formats[i]),
        None => None,
    }
}

/// A resize event as the shared state stores it: each side at least one.
pub open spec fn normalized(events: Seq<(u32, u32)>) -> Seq<(u32, u32)> {
    events.map_values(|e: (u32, u32)| (at_least_one(e.0), at_least_one(e.1)))
}

/// How many entries of `sizes` differ from the entry before them, the first
/// one being compared with `prev`.
pub open spec fn size_changes(prev: (u32, u32), sizes: Seq<(u32, u32)>) -> nat
    decreases sizes.len(),
{
    if sizes.len() == 0 {
        0
    } else {
        (if sizes[0] != prev { 1nat } else { 0nat }) + size_changes(
            sizes[0],
            sizes.subrange(1, sizes.len() as int),
        )
    }
}

/// Feeds each resize event to the shared state and then reconciles the
/// surface, as one frame does. Returns the final sizing, the final shared
/// state and how many reconciliations reconfigured the surface.
pub open spec fn replay(sizing: SurfaceSizing, state: FrameState, events: Seq<(u32, u32)>) -> (
    SurfaceSizing,
    FrameState,
    nat,
)
    decreases events.len(),
{
    if events.len() == 0 {
        (sizing, state, 0)
    } else {
        let st = state.resized(events[0].0, events[0].1);
        let n: nat = if sizing.needs_reconfigure(st) { 1 } else { 0 };
        let r = replay(sizing.reconciled(st), st, events.subrange(1, events.len() as int));
        (r.0, r.1, r.2 + n)
    }
}

/// For any sequence of resize events, each followed by a reconciliation:
/// the configured surface size is the final canvas size scaled by the pixel
/// ratio, and the surface was reconfigured exactly once per change of the
/// canvas size, never for a repeated size.
pub proof fn lemma_resize_sequence(sizing: SurfaceSizing, state: FrameState, events: Seq<(u32, u32)>)
    requires
        sizing.consistent(state.pixel_ratio),
        events.len() > 0 || sizing.last_known == (state.canvas_width, state.canvas_height),
    ensures
        replay(sizing, state, events).0.consistent(state.pixel_ratio),
        replay(sizing, state, events).0.last_known == (
            replay(sizing, state, events).1.canvas_width,
            replay(sizing, state, events).1.canvas_height,
        ),
        replay(sizing, state, events).1.pixel_ratio == state.pixel_ratio,
        replay(sizing, state, events).2 == size_changes(sizing.last_known, normalized(events)),
    decreases events.len(),
{
    if events.len() > 0 {
        let st = state.resized(events[0].0, events[0].1);
        let rest = events.subrange(1, events.len() as int);
        let next = sizing.reconciled(st);
        assert(next.last_known == (st.canvas_width, st.canvas_height));
        lemma_resize_sequence(next, st, rest);
        assert(normalized(events)[0] == next.last_known);
        assert(normalized(events).subrange(1, events.len() as int) =~= normalized(rest));
    }
}

} // verus!
