use smol_engine::init;
use smol_engine::render::{Color, DrawKind, Target};
use smol_engine::ui::sidebar::SideBar;

#[test]
fn sidebar_draws_panel_bar_label_and_border() {
    let mut e = init(0);
    let sidebar = SideBar {};
    sidebar.render(&mut e, 50, 100);
    // Panel, red bar, green fill, label, four border edges.
    let cmds = &e.render.commands;
    assert_eq!(cmds.len(), 8);
    assert_eq!(e.text.queue.len(), 0);
    assert_eq!(e.offset.x, 0);
    assert_eq!(e.offset.y, 0);
    match &cmds[0].kind {
        DrawKind::Rect { x, y, w, h, color } => {
            assert_eq!((*x, *y, *w, *h), (660, 5, 300, 715));
            assert_eq!(*color, Color { r: 28, g: 33, b: 43, a: 255 });
        },
        other => panic!("expected the panel rect, got {:?}", other),
    }
    match &cmds[1].kind {
        DrawKind::Rect { x, y, w, h, color } => {
            assert_eq!((*x, *y, *w, *h), (670, 15, 280, 30));
            assert_eq!(*color, Color { r: 255, g: 0, b: 0, a: 255 });
        },
        other => panic!("expected the full bar rect, got {:?}", other),
    }
    match &cmds[2].kind {
        DrawKind::Rect { w, color, .. } => {
            // Half health: half of the 280-pixel bar.
            assert_eq!(*w, 140);
            assert_eq!(*color, Color { r: 0, g: 255, b: 0, a: 255 });
        },
        other => panic!("expected the fill rect, got {:?}", other),
    }
    match &cmds[3].kind {
        DrawKind::Text { text, x, y, font_size, .. } => {
            assert_eq!(text, "50/100");
            // Centered at 960 - 150 over a 6 * 7 = 42 pixel wide label.
            assert_eq!(*x, 810 - 21);
            assert_eq!(*y, 15);
            assert_eq!(*font_size, 14);
        },
        other => panic!("expected the health label, got {:?}", other),
    }
    for cmd in cmds.iter().skip(4) {
        assert!(matches!(cmd.kind, DrawKind::Rect { .. }));
        assert_eq!(cmd.target, Target::Default);
    }
}

#[test]
fn sidebar_fill_rounds_down() {
    let mut e = init(0);
    let sidebar = SideBar {};
    sidebar.render(&mut e, 1, 3);
    match &e.render.commands[2].kind {
        DrawKind::Rect { w, .. } => assert_eq!(*w, 93),
        other => panic!("expected the fill rect, got {:?}", other),
    }
}
