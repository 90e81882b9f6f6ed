use vstd::prelude::*;

verus! {

/// A size in pixels.
#[derive(PartialEq, Eq, Structural, Clone, Copy, Debug)]
pub struct Size {
    pub width: u32,
    pub height: u32,
}

/// How logical drawing coordinates map to the window's pixel surface.
#[derive(Clone, Copy, Debug)]
pub struct Viewport {
    pub rect: [i32; 4],
    pub draw_size: [u32; 2],
    pub window_size: [u32; 2],
}

/// Whether `v` is the viewport of a window of logical size `size` whose
/// drawable surface is `draw_size` pixels: the rectangle covers the whole
/// drawable surface.
pub open spec fn is_viewport_of(v: Viewport, size: Size, draw_size: Size) -> bool {
    &&& v.rect@ == seq![0i32, 0i32, draw_size.width as i32, draw_size.height as i32]
    &&& v.draw_size@ == seq![draw_size.width, draw_size.height]
    &&& v.window_size@ == seq![size.width, size.height]
}

/// The viewport of a window of logical size `size` and drawable size `draw_size`.
pub fn viewport(size: Size, draw_size: Size) -> (r: Viewport)
    ensures
        is_viewport_of(r, size, draw_size),
{
    let r = Viewport {
        rect: [0, 0, draw_size.width as i32, draw_size.height as i32],
        draw_size: [draw_size.width, draw_size.height],
        window_size: [size.width, size.height],
    };
    assert(r.rect@ =~= seq![0i32, 0i32, draw_size.width as i32, draw_size.height as i32]);
    assert(r.draw_size@ =~= seq![draw_size.width, draw_size.height]);
    assert(r.window_size@ =~= seq![size.width, size.height]);
    r
}

/// Why a render dispatch was refused.
#[derive(PartialEq, Eq, Structural, Clone, Copy, Debug)]
pub enum RenderError {
    /// A render dispatch was asked for inside another one on the same backend.
    Reentrant,
}

/// What a render dispatch does for one frame: the viewport to draw with, and
/// whether the frame is cleared to the background color before drawing.
#[derive(Clone, Copy, Debug)]
pub struct FramePlan {
    pub viewport: Viewport,
    pub clear: bool,
}

/// Exclusive access to one graphics backend: at most one render dispatch on
/// it is under way at a time.
pub struct RenderGuard {
    active: bool,
}

impl RenderGuard {
    /// Whether a render dispatch holds the backend.
    pub closed spec fn is_active(&self) -> bool {
        self.active
    }

    /// A guard with no dispatch under way.
    pub fn new() -> (r: RenderGuard)
        ensures
            !r.is_active(),
    {
        RenderGuard { active: false }
    }

    /// Whether a render dispatch holds the backend.
    pub fn active(&self) -> (r: bool)
        ensures
            r == self.is_active(),
    {
        self.active
    }

    /// Takes the backend for a dispatch; refused when one is already under way.
    pub fn enter(&mut self) -> (r: Result<(), RenderError>)
        ensures
            old(self).is_active() ==> r == Err::<(), RenderError>(RenderError::Reentrant)
                && final(self).is_active(),
            !old(self).is_active() ==> r is Ok && final(self).is_active(),
    {
        if self.active {
            Err(RenderError::Reentrant)
        } else {
            self.active = true;
            Ok(())
        }
    }

    /// Hands the backend back once the frame was submitted.
    pub fn leave(&mut self)
        ensures
            !final(self).is_active(),
    {
        self.active = false;
    }
}

/// Takes the backend behind `guard` for one frame and plans it.
fn begin_frame(guard: &mut RenderGuard, size: Size, draw_size: Size, has_bg_color: bool) -> (r: Result<FramePlan, RenderError>)
    ensures
        old(guard).is_active() ==> r == Err::<FramePlan, RenderError>(RenderError::Reentrant),
        !old(guard).is_active() ==> r is Ok,
        final(guard).is_active(),
        r matches Ok(p) ==> p.clear == has_bg_color && is_viewport_of(p.viewport, size, draw_size),
{
    match guard.enter() {
        Err(e) => Err(e),
        Ok(()) => {
            Ok(FramePlan { viewport: viewport(size, draw_size), clear: has_bg_color })
        },
    }
}

/// Starts a 2D frame on the OpenGL backend: takes the backend and gives the
/// viewport for the window's sizes, and whether to clear to a background
/// color first. A dispatch inside another one is refused and changes nothing.
pub fn render_2d_opengl(guard: &mut RenderGuard, size: Size, draw_size: Size, has_bg_color: bool) -> (r: Result<FramePlan, RenderError>)
    ensures
        old(guard).is_active() ==> r == Err::<FramePlan, RenderError>(RenderError::Reentrant),
        !old(guard).is_active() ==> r is Ok,
        final(guard).is_active(),
        r matches Ok(p) ==> p.clear == has_bg_color && is_viewport_of(p.viewport, size, draw_size),
{
    begin_frame(guard, size, draw_size, has_bg_color)
}

/// Starts a 2D frame on the gfx backend, as `render_2d_opengl` does on the
/// OpenGL one; the frame is submitted to the device and the renderer reset
/// before the guard is left.
pub fn render_2d_gfx(guard: &mut RenderGuard, size: Size, draw_size: Size, has_bg_color: bool) -> (r: Result<FramePlan, RenderError>)
    ensures
        old(guard).is_active() ==> r == Err::<FramePlan, RenderError>(RenderError::Reentrant),
        !old(guard).is_active() ==> r is Ok,
        final(guard).is_active(),
        r matches Ok(p) ==> p.clear == has_bg_color && is_viewport_of(p.viewport, size, draw_size),
{
    begin_frame(guard, size, draw_size, has_bg_color)
}

} // verus!
