//! UI helpers drawn with the engine's primitives.

pub mod sidebar;

use vstd::prelude::*;

use crate::Engine;
use crate::math::Rectangle;
use crate::render::{Color, DrawKind, Renderer};

verus! {

/// The four rectangles a border draw records for `rect` with line
/// `thickness`: top, bottom, left and right edge, in that order.
pub open spec fn border_kinds(rect: Rectangle, thickness: i64, color: Color) -> Seq<DrawKind> {
    seq![
        DrawKind::Rect { x: rect.x, y: rect.y, w: rect.w, h: thickness, color },
        DrawKind::Rect {
            x: rect.x,
            y: (rect.y + rect.h - thickness) as i64,
            w: rect.w,
            h: thickness,
            color,
        },
        DrawKind::Rect { x: rect.x, y: rect.y, w: thickness, h: rect.h, color },
        DrawKind::Rect {
            x: (rect.x + rect.w - thickness) as i64,
            y: rect.y,
            w: thickness,
            h: rect.h,
            color,
        },
    ]
}

/// Draws the border of `rect` as four filled edge rectangles of the given
/// line `thickness`, at absolute coordinates (the drawing offset does not
/// apply).
pub fn line_border(e: &mut Engine, rect: Rectangle, thickness: i64, color: Color)
    requires
        -0x1_0000_0000 <= rect.x <= 0x1_0000_0000,
        -0x1_0000_0000 <= rect.y <= 0x1_0000_0000,
        -0x1_0000_0000 <= rect.w <= 0x1_0000_0000,
        -0x1_0000_0000 <= rect.h <= 0x1_0000_0000,
        -0x1_0000_0000 <= thickness <= 0x1_0000_0000,
    ensures
        *final(e) == (Engine { render: final(e).render, ..*old(e) }),
        final(e).render == (Renderer { commands: final(e).render.commands, ..old(e).render }),
        final(e).render.commands@ == old(e).render.commands@ + border_kinds(
            rect,
            thickness,
            color,
        ).map_values(|kind: DrawKind| old(e).render.stamped(kind)),
        final(e).render.commands@.len() == old(e).render.commands@.len() + 4,
{
    let ghost e0 = *e;
    e.render.rect(rect.w, thickness, rect.x, rect.y, color);
    e.render.rect(rect.w, thickness, rect.x, rect.y + rect.h - thickness, color);
    e.render.rect(thickness, rect.h, rect.x, rect.y, color);
    e.render.rect(thickness, rect.h, rect.x + rect.w - thickness, rect.y, color);
    proof {
        assert(e.render.commands@ =~= e0.render.commands@ + border_kinds(
            rect,
            thickness,
            color,
        ).map_values(|kind: DrawKind| e0.render.stamped(kind)));
    }
}

} // verus!
