use vstd::prelude::*;
use crate::registry::{current_in, Entry, Registry, Slot};

verus! {

/// The handles of the gfx backend family, created together.
#[derive(PartialEq, Eq, Structural, Clone, Copy, Debug)]
pub struct GfxHandles {
    pub device: u64,
    pub g2d: u64,
    pub renderer: u64,
    pub output: u64,
}

/// Every handle that a session publishes: the window and its FPS counter
/// always, the OpenGL backend and the gfx backend family where enabled.
#[derive(PartialEq, Eq, Structural, Clone, Copy, Debug)]
pub struct SessionHandles {
    pub window: u64,
    pub fps_counter: u64,
    pub gl: Option<u64>,
    pub gfx: Option<GfxHandles>,
}

/// What the window stage publishes, in order.
pub open spec fn window_publications(window: u64, fps_counter: u64) -> Seq<Entry> {
    seq![Entry { slot: Slot::Window, handle: window }, Entry { slot: Slot::FpsCounter, handle: fps_counter }]
}

/// What the OpenGL stage publishes.
pub open spec fn opengl_publications(gl: Option<u64>) -> Seq<Entry> {
    match gl {
        Some(h) => seq![Entry { slot: Slot::Gl, handle: h }],
        None => Seq::empty(),
    }
}

/// What the gfx stage publishes, in order: device, 2D context, renderer, output.
pub open spec fn gfx_publications(gfx: Option<GfxHandles>) -> Seq<Entry> {
    match gfx {
        Some(g) => seq![
            Entry { slot: Slot::GfxDevice, handle: g.device },
            Entry { slot: Slot::G2d, handle: g.g2d },
            Entry { slot: Slot::Renderer, handle: g.renderer },
            Entry { slot: Slot::Output, handle: g.output },
        ],
        None => Seq::empty(),
    }
}

/// Everything a session publishes, in order of publication.
pub open spec fn publications(h: SessionHandles) -> Seq<Entry> {
    window_publications(h.window, h.fps_counter) + opengl_publications(h.gl) + gfx_publications(h.gfx)
}

/// Publishes the window, then the FPS counter; returns how many were published.
pub fn start_window(reg: &mut Registry, window: u64, fps_counter: u64) -> (n: usize)
    ensures
        final(reg)@ == old(reg)@ + window_publications(window, fps_counter),
        n == 2,
        current_in(final(reg)@, Slot::Window) == Some(window),
        current_in(final(reg)@, Slot::FpsCounter) == Some(fps_counter),
        forall|k: Slot| k != Slot::Window && k != Slot::FpsCounter
            ==> #[trigger] current_in(final(reg)@, k) == current_in(old(reg)@, k),
{
    reg.publish(Slot::Window, window);
    reg.publish(Slot::FpsCounter, fps_counter);
    proof {
        assert(final(reg)@ =~= old(reg)@ + window_publications(window, fps_counter));
    }
    2
}

/// Publishes the OpenGL backend where there is one; returns how many were published.
pub fn start_opengl(reg: &mut Registry, gl: Option<u64>) -> (n: usize)
    ensures
        final(reg)@ == old(reg)@ + opengl_publications(gl),
        n == opengl_publications(gl).len(),
        current_in(final(reg)@, Slot::Gl) == (match gl {
            Some(h) => Some(h),
            None => current_in(old(reg)@, Slot::Gl),
        }),
        forall|k: Slot| k != Slot::Gl ==> #[trigger] current_in(final(reg)@, k) == current_in(old(reg)@, k),
{
    match gl {
        Some(h) => {
            reg.publish(Slot::Gl, h);
            proof {
                assert(final(reg)@ =~= old(reg)@ + opengl_publications(gl));
            }
            1
        },
        None => {
            proof {
                assert(final(reg)@ =~= old(reg)@ + opengl_publications(gl));
            }
            0
        },
    }
}

/// Publishes the gfx device, 2D context, renderer and output where the gfx
/// family is enabled; returns how many were published.
pub fn start_gfx(reg: &mut Registry, gfx: Option<GfxHandles>) -> (n: usize)
    ensures
        final(reg)@ == old(reg)@ + gfx_publications(gfx),
        n == gfx_publications(gfx).len(),
        gfx matches Some(g) ==> current_in(final(reg)@, Slot::GfxDevice) == Some(g.device)
            && current_in(final(reg)@, Slot::G2d) == Some(g.g2d)
            && current_in(final(reg)@, Slot::Renderer) == Some(g.renderer)
            && current_in(final(reg)@, Slot::Output) == Some(g.output),
        forall|k: Slot| (gfx is None || k == Slot::Window || k == Slot::FpsCounter || k == Slot::Gl)
            ==> #[trigger] current_in(final(reg)@, k) == current_in(old(reg)@, k),
{
    match gfx {
        Some(g) => {
            reg.publish(Slot::GfxDevice, g.device);
            reg.publish(Slot::G2d, g.g2d);
            reg.publish(Slot::Renderer, g.renderer);
            reg.publish(Slot::Output, g.output);
            proof {
                assert(final(reg)@ =~= old(reg)@ + gfx_publications(gfx));
            }
            4
        },
        None => {
            proof {
                assert(final(reg)@ =~= old(reg)@ + gfx_publications(gfx));
            }
            0
        },
    }
}

/// Opens a session: publishes every handle of `h` in order and returns how
/// many were published, which `finish` takes to close the session.
pub fn start(reg: &mut Registry, h: SessionHandles) -> (n: usize)
    ensures
        final(reg)@ == old(reg)@ + publications(h),
        n == publications(h).len(),
        current_in(final(reg)@, Slot::Window) == Some(h.window),
        current_in(final(reg)@, Slot::FpsCounter) == Some(h.fps_counter),
        h.gl matches Some(g) ==> current_in(final(reg)@, Slot::Gl) == Some(g),
        h.gfx matches Some(g) ==> current_in(final(reg)@, Slot::GfxDevice) == Some(g.device)
            && current_in(final(reg)@, Slot::G2d) == Some(g.g2d)
            && current_in(final(reg)@, Slot::Renderer) == Some(g.renderer)
            && current_in(final(reg)@, Slot::Output) == Some(g.output),
{
    let a = start_window(reg, h.window, h.fps_counter);
    let b = start_opengl(reg, h.gl);
    let c = start_gfx(reg, h.gfx);
    proof {
        assert(final(reg)@ =~= old(reg)@ + publications(h));
    }
    a + b + c
}

/// Closes a session that published `n` handles: retracts them, the latest
/// first, and returns them in the order they were retracted.
pub fn finish(reg: &mut Registry, n: usize) -> (r: Vec<Entry>)
    requires
        n <= old(reg)@.len(),
    ensures
        final(reg)@ == old(reg)@.take(old(reg)@.len() - n),
        r@ == old(reg)@.skip(old(reg)@.len() - n).reverse(),
{
    let ghost s = reg@;
    let ghost base = s.len() - n;
    let mut out: Vec<Entry> = Vec::new();
    let mut k: usize = 0;
    while k < n
        invariant
            k <= n,
            n <= s.len(),
            base == s.len() - n,
            reg@ == s.take(s.len() - k),
            out@ == s.skip(s.len() - k).reverse(),
        decreases n - k,
    {
        let e = reg.retract();
        proof {
            assert(s.take(s.len() - k).drop_last() =~= s.take(s.len() - k - 1));
            assert(s.skip(s.len() - k - 1).reverse() =~= s.skip(s.len() - k).reverse().push(
                s[s.len() - k - 1],
            ));
        }
        match e {
            Some(x) => out.push(x),
            None => {},
        }
        k = k + 1;
    }
    out
}

/// Closing a session retracts exactly what it published, the latest first,
/// and leaves below it what was there before; so sessions nested in one
/// another are closed in the reverse order of their publications.
pub proof fn lemma_nested_sessions_retract_in_reverse(before: Seq<Entry>, outer: Seq<Entry>, inner: Seq<Entry>)
    ensures
        (before + outer + inner).skip((before + outer).len() as int).reverse() == inner.reverse(),
        (before + outer + inner).take((before + outer).len() as int) == before + outer,
        (before + outer).skip(before.len() as int).reverse() == outer.reverse(),
        (before + outer).take(before.len() as int) == before,
{
    assert((before + outer + inner).skip((before + outer).len() as int) =~= inner);
    assert((before + outer + inner).take((before + outer).len() as int) =~= before + outer);
    assert((before + outer).skip(before.len() as int) =~= outer);
    assert((before + outer).take(before.len() as int) =~= before);
}

/// Once a session has closed, every slot holds what it held before the session.
pub proof fn lemma_session_restores_slots(before: Seq<Entry>, h: SessionHandles, slot: Slot)
    ensures
        current_in((before + publications(h)).take(before.len() as int), slot) == current_in(before, slot),
{
    assert((before + publications(h)).take(before.len() as int) =~= before);
}

} // verus!
