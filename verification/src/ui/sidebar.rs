use vstd::prelude::*;
use vstd::arithmetic::div_mod::{lemma_div_is_ordered, lemma_div_multiples_vanish};
use vstd::string::StringExecFns;

use crate::{Engine, queue_text_ex, render_rect, render_text_queue, reset_offset, set_offset};
use crate::math::{Rectangle, Vector2Int};
use crate::render::{Color, DrawCmd, DrawKind, Renderer};
use crate::text_render::{TextAlignment, TextQueueConfig, dec_str, decimal_string,
    is_text_cmd_of, lemma_dec_str_len_u32, push_decimal, text_width};
use crate::ui::{border_kinds, line_border};

verus! {

/// The health readout panel: a background, a two-color health bar, the
/// centered `health/max_health` label and a border, drawn in the sidebar's
/// own coordinate frame at the right edge of the window.
pub struct SideBar {}

/// The health label: `health`, a slash, `max_health`, in decimal.
pub open spec fn health_label(health: u32, max_health: u32) -> Seq<char> {
    dec_str(health as nat) + seq!['/'] + dec_str(max_health as nat)
}

/// `cmd` draws the sidebar's health label: centered over the health bar,
/// white, at font size 14, stamped with the render state the sidebar drew
/// under.
pub open spec fn is_label_cmd(cmd: DrawCmd, e0: Engine, health: u32, max_health: u32) -> bool {
    let label = health_label(health, max_health);
    cmd.target == e0.render.target && cmd.projection == e0.render.projection && match cmd.kind {
        DrawKind::Text { text, x, y, font_size, color } => {
            text@ == label && x == e0.device.window_size.x - 150 - text_width(
                label.len() as int,
                14,
            ) / 2 && y == 15 && font_size == 14 && color == (Color {
                r: 255,
                g: 255,
                b: 255,
                a: 255,
            })
        },
        _ => false,
    }
}

/// Everything one sidebar render leaves behind: the drawing offset is back
/// at the origin, the text queue is drained, and the command list grew by
/// the panel rect, the full red bar, the green fill proportional to
/// `health / max_health`, the previously queued text, the health label and
/// the four border edges, in that order, all stamped with the state the
/// sidebar drew under.
pub open spec fn sidebar_post(e0: Engine, e1: Engine, health: u32, max_health: u32) -> bool {
    let ws = e0.device.window_size;
    let x = ws.x - 300;
    let height = ws.y - 5;
    let base = e0.render.commands@.len() as int;
    let qlen = e0.text.queue@.len() as int;
    let fill = 280 * (health as int) / (max_health as int);
    let cmds = e1.render.commands@;
    let border = border_kinds(
        Rectangle { x: x as i64, y: 5, w: 300, h: height as i64 },
        5,
        Color { r: 255, g: 255, b: 255, a: 255 },
    );
    &&& e1 == (Engine {
        render: e1.render,
        text: e1.text,
        offset: Vector2Int { x: 0, y: 0 },
        ..e0
    })
    &&& e1.render == (Renderer { commands: e1.render.commands, ..e0.render })
    &&& e1.text.queue@.len() == 0
    &&& cmds.len() == base + qlen + 8
    &&& cmds.subrange(0, base) =~= e0.render.commands@
    &&& cmds[base] == e0.render.stamped(
        DrawKind::Rect {
            x: x as i64,
            y: 5,
            w: 300,
            h: height as i64,
            color: Color { r: 28, g: 33, b: 43, a: 255 },
        },
    )
    &&& cmds[base + 1] == e0.render.stamped(
        DrawKind::Rect {
            x: (x + 10) as i64,
            y: 15,
            w: 280,
            h: 30,
            color: Color { r: 255, g: 0, b: 0, a: 255 },
        },
    )
    &&& cmds[base + 2] == e0.render.stamped(
        DrawKind::Rect {
            x: (x + 10) as i64,
            y: 15,
            w: fill as i64,
            h: 30,
            color: Color { r: 0, g: 255, b: 0, a: 255 },
        },
    )
    &&& (forall|i: int|
        0 <= i < qlen ==> is_text_cmd_of(
            #[trigger] cmds[base + 3 + i],
            e0.text.queue@[i],
            e0.render,
        ))
    &&& is_label_cmd(cmds[base + 3 + qlen], e0, health, max_health)
    &&& (forall|i: int|
        0 <= i < 4 ==> cmds[base + qlen + 4 + i] == e0.render.stamped(#[trigger] border[i]))
}

impl SideBar {
    /// Draws the sidebar: panel, red bar, green fill of width
    /// `280 * health / max_health`, the centered health label, and a white
    /// border, then flushes the text queue and resets the drawing offset.
    pub fn render(&self, e: &mut Engine, health: u32, max_health: u32)
        requires
            old(e).wf(),
            0 < max_health,
            health <= max_health,
        ensures
            final(e).wf(),
            sidebar_post(*old(e), *final(e), health, max_health),
    {
        let ghost e0 = *e;
        let window_size = e.device.window_size;
        let x = window_size.x - 300;
        let height = window_size.y - 5;
        set_offset(e, Vector2Int { x, y: 5 });
        render_rect(e, 0, 0, 300, height, Color { r: 28, g: 33, b: 43, a: 255 });
        render_rect(e, 10, 10, 280, 30, Color { r: 255, g: 0, b: 0, a: 255 });
        proof {
            lemma_div_is_ordered(280 * (health as int), 280 * (max_health as int), max_health as int);
            lemma_div_multiples_vanish(280, max_health as int);
            assert(280 * (health as int) <= 280 * (max_health as int)) by (nonlinear_arith)
                requires
                    health <= max_health,
            ;
            assert((max_health as int) * 280 == 280 * (max_health as int));
        }
        let fill_width: u64 = 280u64 * (health as u64) / (max_health as u64);
        render_rect(e, 10, 10, fill_width as i32, 30, Color { r: 0, g: 255, b: 0, a: 255 });
        let ghost e4 = *e;

        let mut label = decimal_string(health);
        proof {
            reveal_strlit("/");
        }
        label.append("/");
        push_decimal(&mut label, max_health);
        proof {
            assert(label@ =~= health_label(health, max_health));
            lemma_dec_str_len_u32(health);
            lemma_dec_str_len_u32(max_health);
            assert(label@.len() <= 21);
        }
        let _bounds = queue_text_ex(
            e,
            label.as_str(),
            TextQueueConfig {
                position: Vector2Int { x: 150, y: 10 },
                color: Color { r: 255, g: 255, b: 255, a: 255 },
                font_size: 14,
                horizontal_alignment: TextAlignment::Center,
            },
        );
        let ghost e5 = *e;
        render_text_queue(e);
        let ghost e6 = *e;
        reset_offset(e);
        line_border(
            e,
            Rectangle { x: x as i64, y: 5, w: 300, h: height as i64 },
            5,
            Color { r: 255, g: 255, b: 255, a: 255 },
        );
        proof {
            let base = e0.render.commands@.len() as int;
            let qlen = e0.text.queue@.len() as int;
            let cmds6 = e6.render.commands@;
            let cmds = e.render.commands@;
            let border = border_kinds(
                Rectangle { x: x as i64, y: 5, w: 300, h: height as i64 },
                5,
                Color { r: 255, g: 255, b: 255, a: 255 },
            );
            assert(e4.render.commands@.len() == base + 3);
            assert(cmds6.len() == base + qlen + 4);
            assert(cmds.len() == base + qlen + 8);
            // Everything up to the border was only appended to afterwards.
            assert(forall|j: int| 0 <= j < cmds6.len() ==> #[trigger] cmds[j] == cmds6[j]);
            // The flush kept everything the three rect draws had recorded.
            assert(forall|j: int|
                0 <= j < base + 3 ==> #[trigger] cmds6[j] == e4.render.commands@[j]) by {
                assert(forall|j: int|
                    0 <= j < base + 3 ==> cmds6.subrange(0, base + 3)[j] == #[trigger] cmds6[j]);
            }
            assert(cmds.subrange(0, base) =~= e0.render.commands@);
            assert(cmds[base] == cmds6[base]);
            assert(is_label_cmd(cmds[base + 3 + qlen], e0, health, max_health)) by {
                assert(cmds[base + 3 + qlen] == cmds6[base + 3 + qlen]);
                assert(is_text_cmd_of(
                    cmds6[base + 3 + qlen],
                    e5.text.queue@[qlen],
                    e5.render,
                ));
            }
            assert(forall|i: int|
                0 <= i < 4 ==> cmds[base + qlen + 4 + i] == e0.render.stamped(
                    #[trigger] border[i],
                )) by {
                let appended = border.map_values(|kind: DrawKind| e6.render.stamped(kind));
                assert forall|i: int| 0 <= i < 4 implies cmds[base + qlen + 4 + i]
                    == e0.render.stamped(#[trigger] border[i]) by {
                    assert(cmds[cmds6.len() + i] == cmds6.add(appended)[cmds6.len() + i]);
                    assert(cmds6.add(appended)[cmds6.len() + i] == appended[i]);
                    assert(appended[i] == e6.render.stamped(border[i]));
                }
            }
            assert(sidebar_post(e0, *e, health, max_health));
        }
    }
}

} // verus!
