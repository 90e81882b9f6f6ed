//! A small engine layer: a registry of the backend handles that a session
//! publishes, the session's setup and teardown, and per-frame helpers.

mod fps;
mod registry;
mod render;
mod session;
mod window;


pub use registry::{current_in, Entry, Registry, Slot};
pub use session::{
    finish, lemma_nested_sessions_retract_in_reverse, lemma_session_restores_slots, publications,
    start, start_gfx, start_opengl, start_window, GfxHandles, SessionHandles,
};



pub use fps::{fps_tick, FpsMeter};
pub use render::{
    is_viewport_of, render_2d_gfx, render_2d_opengl, viewport, FramePlan, RenderError, RenderGuard, Size, Viewport,
};
pub use window::WindowState;
