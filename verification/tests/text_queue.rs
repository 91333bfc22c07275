use smol_engine::math::{Matrix, Vector2Int};
use smol_engine::render::{Color, DrawKind};
use smol_engine::text_render::{decimal_string, Rect, TextAlignment, TextQueueConfig};
use smol_engine::events::Event;
use smol_engine::input::InputState;
use smol_engine::{
    end_render, init, queue_text, queue_text_ex, render_text_queue, set_offset, render_rect,
    reset_offset,
};

fn white() -> Color {
    Color { r: 255, g: 255, b: 255, a: 255 }
}

#[test]
fn empty_text_yields_no_bounding_box() {
    let mut e = init(0);
    let bounds = queue_text(&mut e, "", Vector2Int { x: 10, y: 20 }, 14, white());
    assert!(bounds.is_none());
    assert_eq!(e.text.queue.len(), 0);
}

#[test]
fn text_yields_a_nondegenerate_bounding_box() {
    let mut e = init(0);
    let bounds = queue_text(&mut e, "HP", Vector2Int { x: 10, y: 20 }, 14, white());
    let rect = bounds.unwrap();
    assert_eq!(rect, Rect { x: 10, y: 20, w: 14, h: 14 });
    assert!(rect.w > 0 && rect.h > 0);
    assert_eq!(e.text.queue.len(), 1);
}

#[test]
fn flush_emits_one_command_per_request_and_drains() {
    let mut e = init(0);
    queue_text(&mut e, "HP", Vector2Int { x: 10, y: 20 }, 14, white());
    queue_text(&mut e, "MP", Vector2Int { x: 10, y: 40 }, 14, white());
    render_text_queue(&mut e);
    assert_eq!(e.text.queue.len(), 0);
    assert_eq!(e.render.commands.len(), 2);
    match &e.render.commands[0].kind {
        DrawKind::Text { text, x, y, font_size, .. } => {
            assert_eq!(text, "HP");
            assert_eq!(*x, 10);
            assert_eq!(*y, 20);
            assert_eq!(*font_size, 14);
        },
        other => panic!("expected a text command, got {:?}", other),
    }
}

#[test]
fn centered_text_shifts_left_by_half_its_width() {
    let mut e = init(0);
    let config = TextQueueConfig {
        position: Vector2Int { x: 100, y: 20 },
        color: white(),
        font_size: 14,
        horizontal_alignment: TextAlignment::Center,
    };
    let bounds = queue_text_ex(&mut e, "HP", config);
    // The box is measured at the queued position; the shift is applied at
    // flush time.
    assert_eq!(bounds.unwrap(), Rect { x: 100, y: 20, w: 14, h: 14 });
    render_text_queue(&mut e);
    match &e.render.commands[0].kind {
        DrawKind::Text { x, .. } => assert_eq!(*x, 93),
        other => panic!("expected a text command, got {:?}", other),
    }
}

#[test]
fn offset_translates_rects_and_queued_text() {
    let mut e = init(0);
    set_offset(&mut e, Vector2Int { x: 100, y: 200 });
    render_rect(&mut e, 1, 2, 30, 40, white());
    let bounds = queue_text(&mut e, "HP", Vector2Int { x: 10, y: 20 }, 14, white());
    assert_eq!(bounds.unwrap(), Rect { x: 110, y: 220, w: 14, h: 14 });
    match &e.render.commands[0].kind {
        DrawKind::Rect { x, y, w, h, .. } => {
            assert_eq!((*x, *y, *w, *h), (101, 202, 30, 40));
        },
        other => panic!("expected a rect command, got {:?}", other),
    }
    reset_offset(&mut e);
    render_rect(&mut e, 1, 2, 30, 40, white());
    match &e.render.commands[1].kind {
        DrawKind::Rect { x, y, .. } => assert_eq!((*x, *y), (1, 2)),
        other => panic!("expected a rect command, got {:?}", other),
    }
}

#[test]
fn flush_is_stamped_before_the_event_drain() {
    let mut e = init(0);
    let old_projection = e.render.projection;
    queue_text(&mut e, "HP", Vector2Int { x: 10, y: 20 }, 14, white());
    let events = vec![Event::WindowResized { width: 800, height: 600 }];
    end_render(
        &mut e,
        16_000,
        &events,
        InputState { keys: Vec::new(), mouse_x: 0, mouse_y: 0, mouse_buttons: 0 },
    );
    // The queued text was flushed under the projection the frame ran with,
    // not under the projection the resize installed afterwards.
    assert_eq!(e.render.commands.len(), 1);
    assert_eq!(e.render.commands[0].projection, old_projection);
    assert_eq!(e.render.projection, Matrix::ortho(0, 800, 600, 0, -100, 100));
}

#[test]
fn decimal_rendering() {
    assert_eq!(decimal_string(0).as_str(), "0");
    assert_eq!(decimal_string(7).as_str(), "7");
    assert_eq!(decimal_string(1234).as_str(), "1234");
    assert_eq!(decimal_string(4294967295).as_str(), "4294967295");
}
