use smol_engine::events::Event;
use smol_engine::input::InputState;
use smol_engine::math::{Frac, Matrix, Vector2Int};
use smol_engine::render::{Color, DrawKind, Target, Viewport};
use smol_engine::{
    capture_framebuffer, clear, delta_time, get_screen_center, get_window_scale, get_window_size,
    init, is_running, render_rect, stop_capture_framebuffer, end_render,
};

fn no_input() -> InputState {
    InputState { keys: Vec::new(), mouse_x: 0, mouse_y: 0, mouse_buttons: 0 }
}

#[test]
fn init_state() {
    let e = init(0);
    assert!(is_running(&e));
    assert_eq!(get_window_size(&e), Vector2Int { x: 960, y: 720 });
    assert_eq!(e.render.viewport, Viewport { x: 0, y: 0, w: 960, h: 720 });
    assert_eq!(e.render.target, Target::Default);
    assert_eq!(e.render.projection, Matrix::ortho(0, 960, 720, 0, -100, 100));
    assert_eq!(delta_time(&e), 0);
    assert_eq!(e.render.commands.len(), 0);
    assert_eq!(e.text.queue.len(), 0);
}

#[test]
fn escape_key_stops_the_loop() {
    let mut e = init(0);
    let events = vec![Event::KeyDown { keycode: Some(27) }];
    end_render(&mut e, 16_000, &events, no_input());
    assert!(!is_running(&e));
}

#[test]
fn quit_event_stops_the_loop() {
    let mut e = init(0);
    let events = vec![Event::Quit];
    end_render(&mut e, 16_000, &events, no_input());
    assert!(!is_running(&e));
}

#[test]
fn other_events_are_ignored() {
    let mut e = init(0);
    let events = vec![
        Event::Other,
        Event::KeyDown { keycode: Some(42) },
        Event::KeyDown { keycode: None },
    ];
    end_render(&mut e, 16_000, &events, no_input());
    assert!(is_running(&e));
    assert_eq!(get_window_size(&e), Vector2Int { x: 960, y: 720 });
}

#[test]
fn resize_updates_viewport_and_projection_atomically() {
    let mut e = init(0);
    let events = vec![Event::WindowResized { width: 800, height: 600 }];
    end_render(&mut e, 16_000, &events, no_input());
    assert_eq!(get_window_size(&e), Vector2Int { x: 800, y: 600 });
    assert_eq!(e.render.viewport, Viewport { x: 0, y: 0, w: 800, h: 600 });
    assert_eq!(e.render.projection, Matrix::ortho(0, 800, 600, 0, -100, 100));
    // A draw issued immediately after the resize is stamped with the new
    // projection, never a stale one.
    render_rect(&mut e, 1, 2, 3, 4, Color { r: 0, g: 0, b: 0, a: 255 });
    let cmd = e.render.commands.last().unwrap();
    assert_eq!(cmd.projection, Matrix::ortho(0, 800, 600, 0, -100, 100));
}

#[test]
fn end_render_advances_the_clock() {
    let mut e = init(0);
    end_render(&mut e, 16_000, &Vec::new(), no_input());
    assert_eq!(delta_time(&e), 16_000);
    end_render(&mut e, 48_000, &Vec::new(), no_input());
    assert_eq!(delta_time(&e), 32_000);
}

#[test]
fn end_render_rebuilds_the_input_snapshot() {
    let mut e = init(0);
    let snap = InputState { keys: vec![5, 9], mouse_x: 3, mouse_y: 4, mouse_buttons: 1 };
    end_render(&mut e, 16_000, &Vec::new(), snap);
    assert!(e.device.input.current.is_key_down(5));
    assert!(e.device.input.current.is_key_down(9));
    assert!(!e.device.input.current.is_key_down(6));
    assert!(!e.device.input.previous.is_key_down(5));
    let snap2 = InputState { keys: vec![6], mouse_x: 0, mouse_y: 0, mouse_buttons: 0 };
    end_render(&mut e, 32_000, &Vec::new(), snap2);
    assert!(e.device.input.previous.is_key_down(5));
    assert!(e.device.input.current.is_key_down(6));
}

#[test]
fn capture_release_restores_default_target() {
    let mut e = init(0);
    capture_framebuffer(&mut e);
    clear(&mut e, Color { r: 1, g: 2, b: 3, a: 255 });
    stop_capture_framebuffer(&mut e);
    render_rect(&mut e, 0, 0, 10, 10, Color { r: 9, g: 9, b: 9, a: 255 });
    let cmds = &e.render.commands;
    assert_eq!(cmds.len(), 2);
    // The draw between bind and unbind landed off-screen; the draw after
    // the release landed on the default target.
    assert_eq!(cmds[0].target, Target::Offscreen);
    assert_eq!(cmds[1].target, Target::Default);
    assert_eq!(e.render.target, Target::Default);
}

#[test]
fn release_without_capture_is_harmless() {
    let mut e = init(0);
    stop_capture_framebuffer(&mut e);
    assert_eq!(e.render.target, Target::Default);
}

#[test]
fn window_scale_is_clamped() {
    let mut e = init(0);
    // 960 / 320 is inside [2, 5].
    assert_eq!(get_window_scale(&e), Frac { num: 960, den: 320 });
    end_render(&mut e, 0, &vec![Event::WindowResized { width: 400, height: 300 }], no_input());
    assert_eq!(get_window_scale(&e), Frac { num: 2, den: 1 });
    end_render(&mut e, 0, &vec![Event::WindowResized { width: 4000, height: 300 }], no_input());
    assert_eq!(get_window_scale(&e), Frac { num: 5, den: 1 });
}

#[test]
fn screen_center_is_half_the_window() {
    let e = init(0);
    assert_eq!(get_screen_center(&e), Vector2Int { x: 480, y: 360 });
}

#[test]
fn take_commands_drains_the_list() {
    let mut e = init(0);
    clear(&mut e, Color { r: 0, g: 0, b: 0, a: 255 });
    render_rect(&mut e, 0, 0, 1, 1, Color { r: 0, g: 0, b: 0, a: 255 });
    let cmds = e.render.take_commands();
    assert_eq!(cmds.len(), 2);
    assert!(matches!(cmds[0].kind, DrawKind::Clear { .. }));
    assert_eq!(e.render.commands.len(), 0);
}
