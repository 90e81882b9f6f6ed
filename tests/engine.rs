use piston_engine::{
    finish, fps_tick, render_2d_gfx, render_2d_opengl, start, start_gfx, start_opengl, start_window, viewport, Entry,
    FpsMeter, GfxHandles, Registry, RenderError, RenderGuard, SessionHandles, Size, Slot, WindowState,
};

fn full_session() -> SessionHandles {
    SessionHandles {
        window: 1,
        fps_counter: 2,
        gl: Some(3),
        gfx: Some(GfxHandles { device: 4, g2d: 5, renderer: 6, output: 7 }),
    }
}

#[test]
fn empty_registry_has_no_current_handle() {
    let reg = Registry::new();
    assert_eq!(reg.depth(), 0);
    assert_eq!(reg.current(Slot::Window), None);
    assert!(!reg.is_published(Slot::FpsCounter));
}

#[test]
fn publish_shadows_and_retract_restores() {
    let mut reg = Registry::new();
    reg.publish(Slot::Window, 10);
    reg.publish(Slot::Gl, 20);
    reg.publish(Slot::Window, 11);
    assert_eq!(reg.current(Slot::Window), Some(11));
    assert_eq!(reg.current(Slot::Gl), Some(20));
    assert_eq!(reg.retract(), Some(Entry { slot: Slot::Window, handle: 11 }));
    assert_eq!(reg.current(Slot::Window), Some(10));
    assert_eq!(reg.retract(), Some(Entry { slot: Slot::Gl, handle: 20 }));
    assert_eq!(reg.retract(), Some(Entry { slot: Slot::Window, handle: 10 }));
    assert_eq!(reg.retract(), None);
    assert_eq!(reg.current(Slot::Window), None);
}

#[test]
fn session_publishes_in_order_and_retracts_in_reverse() {
    let mut reg = Registry::new();
    let n = start(&mut reg, full_session());
    assert_eq!(n, 7);
    assert_eq!(reg.current(Slot::Window), Some(1));
    assert_eq!(reg.current(Slot::Output), Some(7));
    let out = finish(&mut reg, n);
    let slots: Vec<Slot> = out.iter().map(|e| e.slot).collect();
    assert_eq!(
        slots,
        vec![Slot::Output, Slot::Renderer, Slot::G2d, Slot::GfxDevice, Slot::Gl, Slot::FpsCounter, Slot::Window]
    );
    let handles: Vec<u64> = out.iter().map(|e| e.handle).collect();
    assert_eq!(handles, vec![7, 6, 5, 4, 3, 2, 1]);
    assert_eq!(reg.depth(), 0);
}

#[test]
fn nested_sessions_close_innermost_first_and_restore_slots() {
    let mut reg = Registry::new();
    let outer = start(&mut reg, SessionHandles { window: 1, fps_counter: 2, gl: None, gfx: None });
    let inner = start(&mut reg, SessionHandles { window: 8, fps_counter: 9, gl: Some(3), gfx: None });
    assert_eq!(reg.current(Slot::Window), Some(8));
    let a = finish(&mut reg, inner);
    assert_eq!(a.iter().map(|e| e.handle).collect::<Vec<u64>>(), vec![3, 9, 8]);
    assert_eq!(reg.current(Slot::Window), Some(1));
    assert_eq!(reg.current(Slot::FpsCounter), Some(2));
    assert_eq!(reg.current(Slot::Gl), None);
    let b = finish(&mut reg, outer);
    assert_eq!(b.iter().map(|e| e.handle).collect::<Vec<u64>>(), vec![2, 1]);
    assert_eq!(reg.current(Slot::Window), None);
}

#[test]
fn stages_publish_what_is_enabled() {
    let mut reg = Registry::new();
    assert_eq!(start_window(&mut reg, 1, 2), 2);
    assert_eq!(start_opengl(&mut reg, None), 0);
    assert_eq!(start_gfx(&mut reg, None), 0);
    assert_eq!(reg.depth(), 2);
    assert_eq!(start_opengl(&mut reg, Some(5)), 1);
    assert_eq!(start_gfx(&mut reg, Some(GfxHandles { device: 6, g2d: 7, renderer: 8, output: 9 })), 4);
    assert_eq!(reg.depth(), 7);
    assert_eq!(reg.current(Slot::G2d), Some(7));
}

#[test]
fn fps_tick_never_exceeds_ticks() {
    let mut meter = FpsMeter::new();
    for n in 1..=10usize {
        let r = fps_tick(&mut meter);
        assert!(r >= 1 && r <= n);
    }
}

#[test]
fn fps_tick_counts_frames_in_quick_succession() {
    let mut meter = FpsMeter::new();
    assert_eq!(meter.tick(), 1);
    assert_eq!(fps_tick(&mut meter), 2);
    assert_eq!(fps_tick(&mut meter), 3);
}

#[test]
fn should_close_only_after_request() {
    let mut w = WindowState::new(String::from("game"));
    assert!(!w.should_close());
    w.set_title(String::from("other"));
    assert!(!w.should_close());
    w.request_close();
    assert!(w.should_close());
}

#[test]
fn set_title_is_reflected_exactly() {
    let mut w = WindowState::new(String::from("game"));
    assert_eq!(w.title(), "game");
    w.set_title(String::from("X"));
    assert_eq!(w.title(), "X");
    w.set_title(String::new());
    assert_eq!(w.title(), "");
}

#[test]
fn viewport_covers_drawable_surface() {
    let v = viewport(Size { width: 640, height: 480 }, Size { width: 1280, height: 960 });
    assert_eq!(v.rect, [0, 0, 1280, 960]);
    assert_eq!(v.draw_size, [1280, 960]);
    assert_eq!(v.window_size, [640, 480]);
}

#[test]
fn nested_render_dispatch_is_refused() {
    let mut guard = RenderGuard::new();
    let size = Size { width: 100, height: 50 };
    let plan = render_2d_opengl(&mut guard, size, size, true).unwrap();
    assert!(plan.clear);
    assert_eq!(plan.viewport.rect, [0, 0, 100, 50]);
    assert!(guard.active());
    assert_eq!(render_2d_opengl(&mut guard, size, size, false).err(), Some(RenderError::Reentrant));
    guard.leave();
    assert!(!guard.active());
    let again = render_2d_opengl(&mut guard, size, size, false).unwrap();
    assert!(!again.clear);
}

#[test]
fn nested_gfx_dispatch_is_refused() {
    let mut guard = RenderGuard::new();
    let size = Size { width: 8, height: 4 };
    let draw = Size { width: 16, height: 8 };
    let plan = render_2d_gfx(&mut guard, size, draw, false).unwrap();
    assert_eq!(plan.viewport.window_size, [8, 4]);
    assert_eq!(render_2d_gfx(&mut guard, size, draw, true).err(), Some(RenderError::Reentrant));
    assert_eq!(guard.enter(), Err(RenderError::Reentrant));
    guard.leave();
    assert_eq!(guard.enter(), Ok(()));
}
