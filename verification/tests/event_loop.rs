use wayscriber::event_loop::{dispatch_timeout, min_timeout, LoopTiming};

fn timing() -> LoopTiming {
    LoopTiming {
        capture_active: false,
        surface_configured: true,
        vsync_enabled: true,
        frame_callback_pending: false,
        needs_redraw: false,
        animation: None,
        autosave: None,
        focus_exit: None,
        frame_cap: None,
    }
}

#[test]
fn min_timeout_takes_the_earlier_deadline() {
    assert_eq!(min_timeout(Some(5), Some(3)), Some(3));
    assert_eq!(min_timeout(Some(5), None), Some(5));
    assert_eq!(min_timeout(None, Some(7)), Some(7));
    assert_eq!(min_timeout(None, None), None);
}

#[test]
fn blocked_loop_waits_only_for_deadlines() {
    let mut t = timing();
    t.capture_active = true;
    t.animation = Some(1);
    t.autosave = Some(900);
    t.focus_exit = Some(400);
    assert_eq!(dispatch_timeout(&t), Some(400));
    t.capture_active = false;
    t.surface_configured = false;
    assert_eq!(dispatch_timeout(&t), Some(400));
    t.surface_configured = true;
    t.frame_callback_pending = true;
    assert_eq!(dispatch_timeout(&t), Some(400));
    t.autosave = None;
    t.focus_exit = None;
    assert_eq!(dispatch_timeout(&t), None);
}

#[test]
fn uncapped_redraw_without_vsync_does_not_block() {
    let mut t = timing();
    t.vsync_enabled = false;
    t.needs_redraw = true;
    t.animation = Some(16);
    t.autosave = Some(1000);
    assert_eq!(dispatch_timeout(&t), Some(0));
    t.frame_cap = Some(8);
    assert_eq!(dispatch_timeout(&t), Some(8));
    t.frame_cap = Some(30);
    assert_eq!(dispatch_timeout(&t), Some(16));
    t.animation = None;
    assert_eq!(dispatch_timeout(&t), Some(30));
}

#[test]
fn idle_loop_wakes_for_animation_or_deadlines() {
    let mut t = timing();
    assert_eq!(dispatch_timeout(&t), None);
    t.animation = Some(16);
    t.focus_exit = Some(10);
    assert_eq!(dispatch_timeout(&t), Some(10));
}
