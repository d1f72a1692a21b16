use vstd::prelude::*;
use crate::frame_loop::LoopSlot;
use crate::frame_state::FrameState;
use crate::surface::SurfaceSizing;
use crate::uniform::{elapsed_ms, next_frame, Uniform};

verus! {

/// Name for what heck's `to_title_case` returns on a text.
pub uninterp spec fn title_case_of(s: Seq<char>) -> Seq<char>;

/// Name for what heck's `to_snake_case` returns on a text.
pub uninterp spec fn snake_case_of(s: Seq<char>) -> Seq<char>;

/// Relies on heck's `ToTitleCase::to_title_case`: words capitalised and
/// separated by spaces; the result depends on the characters alone.
#[verifier::external_body]
fn title_case(s: &str) -> (r: String)
    ensures
        r@ == title_case_of(s@),
{
    heck::ToTitleCase::to_title_case(s)
}

/// Relies on heck's `ToSnakeCase::to_snake_case`: lower-case words joined
/// by underscores; the result depends on the characters alone.
#[verifier::external_body]
fn snake_case(s: &str) -> (r: String)
    ensures
        r@ == snake_case_of(s@),
{
    heck::ToSnakeCase::to_snake_case(s)
}

/// Whether two texts hold the same characters.
fn same_text(a: &str, b: &str) -> (r: bool)
    ensures
        r == (a@ == b@),
{
    let n = a.unicode_len();
    if n != b.unicode_len() {
        return false;
    }
    let mut i: usize = 0;
    while i < n
        invariant
            n == a@.len(),
            n == b@.len(),
            i <= n,
            forall|j: int| 0 <= j < i ==> a@[j] == b@[j],
        decreases n - i,
    {
        if a.get_char(i) != b.get_char(i) {
            return false;
        }
        i = i + 1;
    }
    assert(a@ =~= b@);
    true
}

/// The closed set of shader works, each known by a kebab-case slug.
#[derive(Clone, Copy, Debug, PartialEq, Eq)]
pub enum Slug {
    HelloTriangle,
    HelloTriangleWithVertexBuffer,
    GlslsandboxExample,
}

/// One draw call: how many vertices, or indices when `indexed`.
#[derive(Clone, Copy, Debug, PartialEq, Eq)]
pub struct DrawCall {
    pub count: u32,
    pub indexed: bool,
}

/// The resources a shader work builds once and the draw it issues each frame.
#[derive(Clone, Copy, Debug, PartialEq, Eq)]
pub struct RenderPlan {
    /// Whether vertices come from a vertex buffer.
    pub vertex_buffer: bool,
    /// Whether a uniform buffer is bound and rewritten every frame.
    pub uniform: bool,
    pub draw: DrawCall,
}

/// The index list of the full-screen quad: two triangles over four corners.
pub open spec fn quad_index_seq() -> Seq<u16> {
    seq![0u16, 1, 3, 1, 2, 3]
}

/// The indices of the full-screen quad drawn by the sandbox example.
pub fn quad_indices() -> (r: Vec<u16>)
    ensures
        r@ == quad_index_seq(),
{
    let r: Vec<u16> = vec![0, 1, 3, 1, 2, 3];
    assert(r@ =~= quad_index_seq());
    r
}

impl Slug {
    /// The slug's text.
    pub open spec fn text(self) -> Seq<char> {
        match self {
            Slug::HelloTriangle => "hello-triangle"@,
            Slug::HelloTriangleWithVertexBuffer => "hello-triangle-with-vertex-buffer"@,
            Slug::GlslsandboxExample => "glslsandbox-example"@,
        }
    }

    /// The shader work known by the text `s`, if any.
    pub open spec fn parsed(s: Seq<char>) -> Option<Slug> {
        if s == Slug::HelloTriangle.text() {
            Some(Slug::HelloTriangle)
        } else if s == Slug::HelloTriangleWithVertexBuffer.text() {
            Some(Slug::HelloTriangleWithVertexBuffer)
        } else if s == Slug::GlslsandboxExample.text() {
            Some(Slug::GlslsandboxExample)
        } else {
            None
        }
    }

    /// What the shader work builds and draws.
    pub open spec fn plan_of(self) -> RenderPlan {
        match self {
            Slug::HelloTriangle => RenderPlan {
                vertex_buffer: false,
                uniform: false,
                draw: DrawCall { count: 3, indexed: false },
            },
            Slug::HelloTriangleWithVertexBuffer => RenderPlan {
                vertex_buffer: true,
                uniform: false,
                draw: DrawCall { count: 3, indexed: false },
            },
            Slug::GlslsandboxExample => RenderPlan {
                vertex_buffer: true,
                uniform: true,
                draw: DrawCall { count: quad_index_seq().len() as u32, indexed: true },
            },
        }
    }

    /// The slug's text, as shown in page addresses.
    pub fn as_str(&self) -> (r: &'static str)
        ensures
            r@ == self.text(),
    {
        match self {
            Slug::HelloTriangle => "hello-triangle",
            Slug::HelloTriangleWithVertexBuffer => "hello-triangle-with-vertex-buffer",
            Slug::GlslsandboxExample => "glslsandbox-example",
        }
    }

    /// The slug's text as an owned string.
    pub fn to_string(&self) -> (r: String)
        ensures
            r@ == self.text(),
    {
        String::from_str(self.as_str())
    }

    /// The shader work whose slug is `s`; `None` for any other text.
    pub fn from_str(s: &str) -> (r: Option<Slug>)
        ensures
            r == Slug::parsed(s@),
    {
        if same_text(s, Slug::HelloTriangle.as_str()) {
            Some(Slug::HelloTriangle)
        } else if same_text(s, Slug::HelloTriangleWithVertexBuffer.as_str()) {
            Some(Slug::HelloTriangleWithVertexBuffer)
        } else if same_text(s, Slug::GlslsandboxExample.as_str()) {
            Some(Slug::GlslsandboxExample)
        } else {
            None
        }
    }

    /// Every shader work, in the order they were added.
    pub fn all() -> (r: Vec<Slug>)
        ensures
            r@ == seq![
                Slug::HelloTriangle,
                Slug::HelloTriangleWithVertexBuffer,
                Slug::GlslsandboxExample,
            ],
    {
        let r = vec![Slug::HelloTriangle, Slug::HelloTriangleWithVertexBuffer, Slug::GlslsandboxExample];
        assert(r@ =~= seq![
            Slug::HelloTriangle,
            Slug::HelloTriangleWithVertexBuffer,
            Slug::GlslsandboxExample,
        ]);
        r
    }

    /// The title shown for the shader work: its slug in title case.
    pub fn title(&self) -> (r: String)
        ensures
            r@ == title_case_of(self.text()),
    {
        title_case(self.as_str())
    }

    /// The address of the shader work's page.
    pub fn page_url(&self) -> (r: String)
        ensures
            r@ == "/shaders/"@ + self.text(),
    {
        let mut r = String::from_str("/shaders/");
        r.append(self.as_str());
        r
    }

    /// The path of the shader work's thumbnail image, relative to the
    /// public assets: built from the slug in snake case.
    pub fn thumbnail_path(&self) -> (r: String)
        ensures
            r@ == "shaders/thumbnail/"@ + snake_case_of(self.text()) + ".webp"@,
    {
        let snake = snake_case(self.as_str());
        thumbnail_path_for(snake.as_str())
    }

    /// What the shader work builds and draws.
    pub fn plan(&self) -> (r: RenderPlan)
        ensures
            r == self.plan_of(),
    {
        match self {
            Slug::HelloTriangle => RenderPlan {
                vertex_buffer: false,
                uniform: false,
                draw: DrawCall { count: 3, indexed: false },
            },
            Slug::HelloTriangleWithVertexBuffer => RenderPlan {
                vertex_buffer: true,
                uniform: false,
                draw: DrawCall { count: 3, indexed: false },
            },
            Slug::GlslsandboxExample => {
                let indices = quad_indices();
                RenderPlan {
                    vertex_buffer: true,
                    uniform: true,
                    draw: DrawCall { count: indices.len() as u32, indexed: true },
                }
            },
        }
    }
}

/// The thumbnail path for a shader work whose snake-case name is `snake`.
pub fn thumbnail_path_for(snake: &str) -> (r: String)
    ensures
        r@ == "shaders/thumbnail/"@ + snake@ + ".webp"@,
{
    let mut r = String::from_str("shaders/thumbnail/");
    r.append(snake);
    r.append(".webp");
    r
}

/// What the host must do before acquiring the frame's surface texture.
#[derive(Clone, Copy, Debug, PartialEq, Eq)]
pub struct FramePrep {
    /// New surface (width, height) to reconfigure with, if the canvas was resized.
    pub reconfigure: Option<(u32, u32)>,
    /// Uniform block to upload, for shader works that use one.
    pub upload: Option<Uniform>,
}

/// What to do once surface texture acquisition has been attempted.
#[derive(Clone, Copy, Debug, PartialEq, Eq)]
pub enum FrameAction {
    /// Clear the texture, issue the draw call, submit and present.
    Render(DrawCall),
    /// No texture was acquired: skip this frame; the loop goes on.
    Skip,
}

/// The per-canvas state of a running shader work: which work it is, what it
/// draws, how the surface is sized and the uniform block it keeps.
#[derive(Clone, Copy, Debug, PartialEq, Eq)]
pub struct ShaderWork {
    pub slug: Slug,
    pub plan: RenderPlan,
    pub sizing: SurfaceSizing,
    pub uniform: Uniform,
}

impl ShaderWork {
    /// The plan is the one of the work's slug.
    pub open spec fn wf(&self) -> bool {
        self.plan == self.slug.plan_of()
    }

    /// The work and the host's instructions after beginning a frame that
    /// took `delta_ms` milliseconds: the surface is reconciled first, then
    /// the uniform block, if any, is refreshed from the reconciled size.
    pub open spec fn begun(self, state: FrameState, delta_ms: i64) -> (ShaderWork, FramePrep) {
        let sizing = self.sizing.reconciled(state);
        let reconfigure = if self.sizing.needs_reconfigure(state) {
            Some((sizing.width, sizing.height))
        } else {
            None
        };
        if self.plan.uniform {
            let uniform = self.uniform.updated(sizing, delta_ms, state);
            (
                ShaderWork { sizing, uniform, ..self },
                FramePrep { reconfigure, upload: Some(uniform) },
            )
        } else {
            (ShaderWork { sizing, ..self }, FramePrep { reconfigure, upload: None })
        }
    }

    /// The action once acquisition of the surface texture succeeded or not.
    pub open spec fn action(self, acquired: bool) -> FrameAction {
        if acquired { FrameAction::Render(self.plan.draw) } else { FrameAction::Skip }
    }

    /// A shader work starting on a freshly created surface, while the shared
    /// state is `state`.
    pub fn new(slug: Slug, state: &FrameState) -> (r: ShaderWork)
        requires
            state.pixel_ratio.wf(),
        ensures
            r.wf(),
            r.slug == slug,
            r.sizing.last_known == (state.canvas_width, state.canvas_height),
            r.sizing.consistent(state.pixel_ratio),
            r.uniform.frame == 0,
            r.uniform.time_ms == 0,
    {
        ShaderWork {
            slug,
            plan: slug.plan(),
            sizing: SurfaceSizing::new(state),
            uniform: Uniform::new(),
        }
    }

    /// Begins a frame that took `delta_ms` milliseconds.
    pub fn begin_frame(&mut self, state: &FrameState, delta_ms: i64) -> (r: FramePrep)
        requires
            state.pixel_ratio.wf(),
        ensures
            (*final(self), r) == old(self).begun(*state, delta_ms),
    {
        let reconfigure = self.sizing.reconcile(state);
        if self.plan.uniform {
            self.uniform.update(&self.sizing, delta_ms, state);
            FramePrep { reconfigure, upload: Some(self.uniform) }
        } else {
            FramePrep { reconfigure, upload: None }
        }
    }

    /// Runs the frame callback of the loop holding `handle`: `None`, and
    /// nothing changes, when that loop is no longer the current one.
    pub fn tick(
        &mut self,
        slot: &LoopSlot,
        handle: u64,
        state: &FrameState,
        delta_ms: i64,
    ) -> (r: Option<FramePrep>)
        requires
            state.pixel_ratio.wf(),
        ensures
            slot.runs(handle) ==> (*final(self), r->0) == old(self).begun(*state, delta_ms)
                && r is Some,
            !slot.runs(handle) ==> *final(self) == *old(self) && r is None,
    {
        if slot.is_current(handle) {
            Some(self.begin_frame(state, delta_ms))
        } else {
            None
        }
    }

    /// What to do once acquisition of the surface texture succeeded or not.
    pub fn frame_action(&self, acquired: bool) -> (r: FrameAction)
        ensures
            r == self.action(acquired),
    {
        if acquired {
            FrameAction::Render(self.plan.draw)
        } else {
            FrameAction::Skip
        }
    }
}

/// A frame whose surface texture could not be acquired is skipped, and the
/// loop goes on: a skip touches neither the loop slot nor the work, the next
/// frame renders once its texture is acquired, and the skipped frame still
/// counted in the uniform block.
pub proof fn lemma_skipped_frame_keeps_loop(
    w: ShaderWork,
    state: FrameState,
    delta_ms: i64,
    next_state: FrameState,
    next_delta_ms: i64,
)
    ensures
        w.begun(state, delta_ms).0.action(false) == FrameAction::Skip,
        w.begun(state, delta_ms).0.begun(next_state, next_delta_ms).0.action(true)
            == FrameAction::Render(w.plan.draw),
        w.plan.uniform ==> w.begun(state, delta_ms).0.begun(next_state, next_delta_ms).1.upload
            == Some(w.begun(state, delta_ms).0.begun(next_state, next_delta_ms).0.uniform),
        w.plan.uniform ==> w.begun(state, delta_ms).0.begun(next_state, next_delta_ms).0.uniform.frame
            == next_frame(next_frame(w.uniform.frame)),
{
}

/// The work after one frame for each (shared state, delta) in `frames`,
/// first to last.
pub open spec fn begun_all(w: ShaderWork, frames: Seq<(FrameState, i64)>) -> ShaderWork
    decreases frames.len(),
{
    if frames.len() == 0 {
        w
    } else {
        begun_all(w.begun(frames[0].0, frames[0].1).0, frames.subrange(1, frames.len() as int))
    }
}

/// Total milliseconds that the frames' deltas contribute.
pub open spec fn frames_elapsed(frames: Seq<(FrameState, i64)>) -> int
    decreases frames.len(),
{
    if frames.len() == 0 {
        0
    } else {
        elapsed_ms(frames[0].1) + frames_elapsed(frames.subrange(1, frames.len() as int))
    }
}

/// For a work with a uniform block, over any run of frame callbacks,
/// whatever the resizes and pointer moves between them and whether their
/// textures were acquired: the frame counter grows by exactly one per
/// callback, and the time never goes back and grows by exactly the elapsed
/// deltas as long as their sum fits.
pub proof fn lemma_frames_advance_uniform(w: ShaderWork, frames: Seq<(FrameState, i64)>)
    requires
        w.plan.uniform,
    ensures
        begun_all(w, frames).plan == w.plan,
        begun_all(w, frames).uniform.time_ms >= w.uniform.time_ms,
        w.uniform.time_ms + frames_elapsed(frames) <= u64::MAX ==> begun_all(w, frames).uniform.time_ms
            == w.uniform.time_ms + frames_elapsed(frames),
        w.uniform.frame + frames.len() <= i32::MAX ==> begun_all(w, frames).uniform.frame
            == w.uniform.frame + frames.len(),
    decreases frames.len(),
{
    if frames.len() > 0 {
        let rest = frames.subrange(1, frames.len() as int);
        lemma_frames_elapsed_nonnegative(rest);
        lemma_frames_advance_uniform(w.begun(frames[0].0, frames[0].1).0, rest);
    }
}

/// The elapsed total of any frames is not negative.
proof fn lemma_frames_elapsed_nonnegative(frames: Seq<(FrameState, i64)>)
    ensures
        frames_elapsed(frames) >= 0,
    decreases frames.len(),
{
    if frames.len() > 0 {
        lemma_frames_elapsed_nonnegative(frames.subrange(1, frames.len() as int));
    }
}

} // verus!
