//! Rendering and frame-lifecycle core of a 2D game engine.
//!
//! The library owns the per-frame update/render cycle, camera-to-screen
//! projection, off-screen framebuffer capture and the frame clock. The
//! native windowing and GPU backend sits outside it: the engine records
//! every draw as a command stamped with the render state it must run under,
//! and an outer driver presents the frame, drains the platform's events into
//! [`events::Event`] values and feeds them back through [`end_render`].

pub mod camera;
pub mod events;
pub mod input;
pub mod math;
pub mod render;
pub mod text_render;
pub mod ui;

use vstd::prelude::*;

use crate::events::{Event, FrameView, KEYCODE_ESCAPE, apply_event, apply_events, events_wf,
    lemma_apply_events_consistent, lemma_apply_events_snoc};
use crate::input::{Input, InputState};
use crate::math::{Frac, Vector2Frac, Vector2Int, window_projection};
use crate::render::{Color, DrawCmd, DrawKind, FrameBuffer, PartialTexture, Renderer, Target,
    Texture, Viewport, unbound};
use crate::text_render::{Rect, TextAlignment, TextQueueConfig, TextRenderer, TextRequest,
    is_text_cmd_of, req_matches, text_width};

verus! {

/// The frame clock: per-frame delta time and a one-second-windowed frame
/// rate. All times are monotonic timestamps and durations in microseconds.
#[derive(Clone, Copy, Debug, PartialEq, Eq, Structural)]
pub struct TimeStep {
    /// Timestamp of the previous `delta` call (microseconds).
    pub last_time: u64,
    /// Duration of the last frame (microseconds).
    pub delta_time: u64,
    /// Frames counted since the window last reset.
    pub frame_count: u32,
    /// Frame time accumulated since the window last reset (microseconds).
    pub frame_time: u64,
    /// The frame count snapshotted when the window last filled.
    pub last_frame_count: u32,
}

/// One second, in the microsecond unit the clock counts in.
pub const SECOND_MICROS: u64 = 1_000_000;

impl TimeStep {
    /// A fresh clock whose last observed instant is `now_micros`.
    pub fn new(now_micros: u64) -> (r: TimeStep)
        ensures
            r == (TimeStep {
                last_time: now_micros,
                delta_time: 0,
                frame_count: 0,
                frame_time: 0,
                last_frame_count: 0,
            }),
    {
        TimeStep {
            last_time: now_micros,
            delta_time: 0,
            frame_count: 0,
            frame_time: 0,
            last_frame_count: 0,
        }
    }

    /// Advances the clock to `now_micros` and returns the elapsed time since
    /// the previous call. The delta is never negative: a timestamp that did
    /// not advance yields zero.
    pub fn delta(&mut self, now_micros: u64) -> (d: u64)
        ensures
            d == (if now_micros >= old(self).last_time {
                now_micros - old(self).last_time
            } else {
                0
            }),
            *final(self) == (TimeStep { last_time: now_micros, delta_time: d, ..*old(self) }),
    {
        let d = if now_micros >= self.last_time {
            now_micros - self.last_time
        } else {
            0
        };
        self.last_time = now_micros;
        self.delta_time = d;
        d
    }

    /// The frame rate over the last full one-second window.
    ///
    /// Accumulates the last delta and counts the frame; when the accumulator
    /// reaches one second, snapshots the count, resets both and returns the
    /// fresh snapshot. Otherwise returns the previous snapshot, so the value
    /// changes at most once per second.
    pub fn frame_rate(&mut self) -> (fps: u32)
        requires
            old(self).frame_count < u32::MAX,
            old(self).frame_time + old(self).delta_time <= u64::MAX,
        ensures
            ({
                let counted = (old(self).frame_count + 1) as u32;
                let accumulated = (old(self).frame_time + old(self).delta_time) as u64;
                if accumulated >= SECOND_MICROS {
                    fps == counted && *final(self) == (TimeStep {
                        frame_count: 0,
                        frame_time: 0,
                        last_frame_count: counted,
                        ..*old(self)
                    })
                } else {
                    fps == old(self).last_frame_count && *final(self) == (TimeStep {
                        frame_count: counted,
                        frame_time: accumulated,
                        ..*old(self)
                    })
                }
            }),
    {
        self.frame_count = self.frame_count + 1;
        self.frame_time = self.frame_time + self.delta_time;
        if self.frame_time >= SECOND_MICROS {
            let tmp = self.frame_count;
            self.frame_count = 0;
            self.frame_time = 0;
            self.last_frame_count = tmp;
            return tmp;
        }
        self.last_frame_count
    }
}

/// Base render resolution, in logical pixels.
pub const RENDER_RES_W: i32 = 320;

/// Base render resolution, in logical pixels.
pub const RENDER_RES_H: i32 = 240;

/// Integer display scale factor applied to the base resolution.
pub const DEFAULT_SCALE: i32 = 3;

/// The device context: run state, window size, per-frame delta time, the
/// frame clock and the input snapshot. The native window, graphics surface
/// and event source it stands for live with the driver outside the library;
/// everything the engine's logic reads of them is mirrored here.
pub struct Smol {
    pub running: bool,
    pub time_step: TimeStep,
    pub input: Input,
    /// Duration of the last frame, in microseconds.
    pub delta_time: u64,
    pub window_size: Vector2Int,
}

/// The engine: the device context, the render context, the text render
/// context and the drawing offset, constructed once by [`init`] and passed
/// explicitly wherever draw access is needed.
pub struct Engine {
    pub device: Smol,
    pub render: Renderer,
    pub text: TextRenderer,
    /// Translation applied to subsequently issued rects and queued text,
    /// letting a UI layer establish a local origin.
    pub offset: Vector2Int,
}

impl Engine {
    /// The slice of state the frame-loop event drain works on.
    pub open spec fn frame_view(self) -> FrameView {
        FrameView {
            running: self.device.running,
            window_size: self.device.window_size,
            viewport: self.render.viewport,
            projection: self.render.projection,
        }
    }

    /// Viewport, projection and window size agree, and every queued text
    /// request is well-formed.
    pub open spec fn wf(self) -> bool {
        self.frame_view().consistent() && self.text.wf()
    }
}

/// Read access to the device context.
pub fn get_context(e: &Engine) -> (d: &Smol)
    ensures
        *d == e.device,
{
    &e.device
}

/// Read access to the render context.
pub fn get_render_context(e: &Engine) -> (r: &Renderer)
    ensures
        *r == e.render,
{
    &e.render
}

/// Read access to the text render context.
pub fn get_text_render_context(e: &Engine) -> (t: &TextRenderer)
    ensures
        *t == e.text,
{
    &e.text
}

/// Exactly the render context's command list changed, and it only grew by
/// commands stamped with the state that was current when they were issued.
pub open spec fn only_drew(e0: Engine, e1: Engine) -> bool {
    e1 == (Engine { render: e1.render, ..e0 }) && e1.render == (Renderer {
        commands: e1.render.commands,
        ..e0.render
    })
}

/// `e1` is `e0` after recording the single draw `kind`.
pub open spec fn drew_one(e0: Engine, e1: Engine, kind: DrawKind) -> bool {
    only_drew(e0, e1) && e1.render.commands@ == e0.render.commands@.push(e0.render.stamped(kind))
}

/// Every draw lands as the last recorded command, stamped with exactly the
/// projection and target in force when it was issued: after a resize the
/// stamp is the new projection and never a stale one, and after a capture
/// release it is the default target.
pub proof fn lemma_draw_uses_current_state(e0: Engine, e1: Engine, kind: DrawKind)
    requires
        drew_one(e0, e1, kind),
    ensures
        e1.render.commands@.last() == e0.render.stamped(kind),
        e1.render.commands@.last().projection == e0.render.projection,
        e1.render.commands@.last().target == e0.render.target,
{
}

/// Clears the currently bound target to `color`.
pub fn clear(e: &mut Engine, color: Color)
    ensures
        drew_one(*old(e), *final(e), DrawKind::Clear { color }),
{
    e.render.clear(color);
}

/// Draws a filled rectangle at `(x, y)`, translated by the current offset.
pub fn render_rect(e: &mut Engine, x: i32, y: i32, width: i32, height: i32, color: Color)
    ensures
        drew_one(
            *old(e),
            *final(e),
            DrawKind::Rect {
                x: (x + old(e).offset.x) as i64,
                y: (y + old(e).offset.y) as i64,
                w: width as int as i64,
                h: height as int as i64,
                color,
            },
        ),
{
    let fx: i64 = x as i64 + e.offset.x as i64;
    let fy: i64 = y as i64 + e.offset.y as i64;
    e.render.rect(width as i64, height as i64, fx, fy, color);
}

/// Draws a texture at its natural size.
pub fn render_texture(e: &mut Engine, texture: &Texture, position: Vector2Int)
    ensures
        drew_one(
            *old(e),
            *final(e),
            DrawKind::TexturedQuad {
                texture: *texture,
                x: position.x as int as i64,
                y: position.y as int as i64,
                scale_x: Frac { num: 1, den: 1 },
                scale_y: Frac { num: 1, den: 1 },
            },
        ),
{
    e.render.texture(texture, position);
}

/// Draws a texture scaled uniformly by `scale`.
pub fn render_texture_scale(e: &mut Engine, texture: &Texture, position: Vector2Int, scale: Frac)
    ensures
        drew_one(
            *old(e),
            *final(e),
            DrawKind::TexturedQuad {
                texture: *texture,
                x: position.x as int as i64,
                y: position.y as int as i64,
                scale_x: scale,
                scale_y: scale,
            },
        ),
{
    e.render.texture_scale(texture, position, scale);
}

/// Draws a sub-rectangle of a texture (an atlas cell).
pub fn render_texture_partial(e: &mut Engine, texture: &PartialTexture, position: Vector2Int)
    ensures
        drew_one(
            *old(e),
            *final(e),
            DrawKind::PartialQuad {
                texture: *texture,
                x: position.x as int as i64,
                y: position.y as int as i64,
            },
        ),
{
    e.render.render_texture_partial(texture, position);
}

/// Redirects subsequent draws to the off-screen capture target.
pub fn capture_framebuffer(e: &mut Engine)
    ensures
        *final(e) == (Engine { render: final(e).render, ..*old(e) }),
        final(e).render == (Renderer { target: Target::Offscreen, ..old(e).render }),
{
    e.render.bind_framebuffer();
}

/// Restores the default target, whatever was bound and whatever was drawn
/// since the capture began.
pub fn stop_capture_framebuffer(e: &mut Engine)
    ensures
        *final(e) == (Engine { render: final(e).render, ..*old(e) }),
        final(e).render == unbound(old(e).render),
{
    e.render.unbind_framebuffer();
}

/// Composites the off-screen capture back onto the currently bound target,
/// scaled uniformly by `scale`.
pub fn render_framebuffer(e: &mut Engine, position: Vector2Int, scale: Frac)
    ensures
        drew_one(
            *old(e),
            *final(e),
            DrawKind::TexturedQuad {
                texture: old(e).render.frame_buffer.texture,
                x: position.x as int as i64,
                y: position.y as int as i64,
                scale_x: scale,
                scale_y: scale,
            },
        ),
{
    let texture = e.render.frame_buffer.texture;
    e.render.texture_scale(&texture, position, scale);
}

/// Draws a captured framebuffer texture with a per-axis scale.
pub fn render_framebuffer_scale(
    e: &mut Engine,
    texture: &Texture,
    position: Vector2Int,
    scale: Vector2Frac,
)
    ensures
        drew_one(
            *old(e),
            *final(e),
            DrawKind::TexturedQuad {
                texture: *texture,
                x: position.x as int as i64,
                y: position.y as int as i64,
                scale_x: scale.x,
                scale_y: scale.y,
            },
        ),
{
    e.render.texture_scale_xy(texture, position, scale.x, scale.y);
}

/// Translates all subsequently issued rects and queued text by `offset`.
pub fn set_offset(e: &mut Engine, offset: Vector2Int)
    ensures
        *final(e) == (Engine { offset, ..*old(e) }),
{
    e.offset = offset;
}

/// Clears the drawing offset.
pub fn reset_offset(e: &mut Engine)
    ensures
        *final(e) == (Engine { offset: Vector2Int { x: 0, y: 0 }, ..*old(e) }),
{
    e.offset = Vector2Int { x: 0, y: 0 };
}

/// Queues a left-aligned run of text at `position` (translated by the
/// current offset) and returns its bounding box; `None`, with nothing
/// queued, when the text is empty or cannot be laid out.
pub fn queue_text(
    e: &mut Engine,
    text: &str,
    position: Vector2Int,
    font_size: u32,
    color: Color,
) -> (bounds: Option<Rect>)
    requires
        old(e).text.wf(),
    ensures
        final(e).text.wf(),
        queued_text_post(
            *old(e),
            *final(e),
            bounds,
            text@,
            position,
            font_size,
            color,
            TextAlignment::Start,
        ),
{
    let x: i64 = position.x as i64 + e.offset.x as i64;
    let y: i64 = position.y as i64 + e.offset.y as i64;
    e.text.queue_text(text, x, y, font_size, color, TextAlignment::Start)
}

/// Queues a run of text with explicit layout configuration; otherwise as
/// [`queue_text`].
pub fn queue_text_ex(e: &mut Engine, text: &str, config: TextQueueConfig) -> (bounds: Option<Rect>)
    requires
        old(e).text.wf(),
    ensures
        final(e).text.wf(),
        queued_text_post(
            *old(e),
            *final(e),
            bounds,
            text@,
            config.position,
            config.font_size,
            config.color,
            config.horizontal_alignment,
        ),
{
    let x: i64 = config.position.x as i64 + e.offset.x as i64;
    let y: i64 = config.position.y as i64 + e.offset.y as i64;
    e.text.queue_text(text, x, y, config.font_size, config.color, config.horizontal_alignment)
}

/// What queueing text through the engine does: only the text queue changes;
/// an empty or unlayoutable run queues nothing and yields no box, any other
/// run is appended with the offset position and yields its measured box.
pub open spec fn queued_text_post(
    e0: Engine,
    e1: Engine,
    bounds: Option<Rect>,
    text: Seq<char>,
    position: Vector2Int,
    font_size: u32,
    color: Color,
    alignment: TextAlignment,
) -> bool {
    let x = position.x + e0.offset.x;
    let y = position.y + e0.offset.y;
    e1 == (Engine { text: e1.text, ..e0 }) && if text.len() == 0 || text.len() * font_size
        > u32::MAX {
        bounds == None::<Rect> && e1.text == e0.text
    } else {
        bounds == Some(
            Rect {
                x: x as i64,
                y: y as i64,
                w: text_width(text.len() as int, font_size as int) as u32,
                h: font_size,
            },
        ) && e1.text.queue@.len() == e0.text.queue@.len() + 1 && e1.text.queue@.subrange(
            0,
            e0.text.queue@.len() as int,
        ) =~= e0.text.queue@ && req_matches(
            e1.text.queue@.last(),
            text,
            x as int,
            y as int,
            font_size,
            color,
            alignment,
        )
    }
}

/// Flushes the text queue: every pending request becomes one draw command,
/// in queue order, stamped with the current target and projection; the
/// queue is left empty.
pub fn render_text_queue(e: &mut Engine)
    requires
        old(e).text.wf(),
    ensures
        final(e).text.wf(),
        flushed_text_post(*old(e), *final(e)),
{
    e.text.render_queue(&mut e.render);
}

/// What flushing the text queue does: the queue drains into the command
/// list, one text command per request in order, stamped with the render
/// state at flush time; nothing else changes.
pub open spec fn flushed_text_post(e0: Engine, e1: Engine) -> bool {
    e1 == (Engine { text: e1.text, render: e1.render, ..e0 }) && e1.text.queue@.len() == 0
        && e1.render == (Renderer { commands: e1.render.commands, ..e0.render })
        && e1.render.commands@.len() == e0.render.commands@.len() + e0.text.queue@.len()
        && e1.render.commands@.subrange(0, e0.render.commands@.len() as int)
        =~= e0.render.commands@ && (forall|i: int|
        0 <= i < e0.text.queue@.len() ==> is_text_cmd_of(
            #[trigger] e1.render.commands@[e0.render.commands@.len() + i],
            e0.text.queue@[i],
            e0.render,
        ))
}

/// The recorded window size.
pub fn get_window_size(e: &Engine) -> (s: Vector2Int)
    ensures
        s == e.device.window_size,
{
    e.device.window_size
}

/// The window scale: the ratio of the window width to the base render
/// width, clamped to `[2, 5]`.
pub fn get_window_scale(e: &Engine) -> (s: Frac)
    ensures
        s.wf(),
        e.device.window_size.x <= 2 * RENDER_RES_W ==> s == (Frac { num: 2, den: 1 }),
        e.device.window_size.x >= 5 * RENDER_RES_W ==> s == (Frac { num: 5, den: 1 }),
        2 * RENDER_RES_W < e.device.window_size.x < 5 * RENDER_RES_W ==> s == (Frac {
            num: e.device.window_size.x as i64,
            den: RENDER_RES_W as i64,
        }),
{
    let w = e.device.window_size.x;
    if w <= 2 * RENDER_RES_W {
        Frac { num: 2, den: 1 }
    } else if w >= 5 * RENDER_RES_W {
        Frac { num: 5, den: 1 }
    } else {
        Frac { num: w as i64, den: RENDER_RES_W as i64 }
    }
}

/// The center of the window, in pixels.
pub fn get_screen_center(e: &Engine) -> (c: Vector2Int)
    requires
        0 <= e.device.window_size.x,
        0 <= e.device.window_size.y,
    ensures
        c == (Vector2Int { x: (e.device.window_size.x / 2) as i32, y: (e.device.window_size.y / 2) as i32 }),
{
    Vector2Int { x: e.device.window_size.x / 2, y: e.device.window_size.y / 2 }
}

/// Whether the engine should keep running; the sole signal the outer loop
/// checks to decide whether to continue.
pub fn is_running(e: &Engine) -> (r: bool)
    ensures
        r == e.device.running,
{
    e.device.running
}

/// The duration of the last frame, in microseconds.
pub fn delta_time(e: &Engine) -> (d: u64)
    ensures
        d == e.device.delta_time,
{
    e.device.delta_time
}

/// A fresh engine: running, sized to the base resolution times the display
/// scale, viewport and projection installed for that size, empty command
/// list and text queue, a zeroed clock starting at `now_micros` and an
/// empty input snapshot. The driver creates the native window and surface
/// for the same size before the first frame; if it cannot, the process
/// aborts and this state is never reached.
pub fn init(now_micros: u64) -> (e: Engine)
    ensures
        e.wf(),
        e.device.running,
        e.device.window_size == (Vector2Int {
            x: (RENDER_RES_W * DEFAULT_SCALE) as i32,
            y: (RENDER_RES_H * DEFAULT_SCALE) as i32,
        }),
        e.device.delta_time == 0,
        e.device.time_step == (TimeStep {
            last_time: now_micros,
            delta_time: 0,
            frame_count: 0,
            frame_time: 0,
            last_frame_count: 0,
        }),
        e.device.input.current.keys@ =~= Seq::<u32>::empty(),
        e.device.input.previous.keys@ =~= Seq::<u32>::empty(),
        e.render.viewport == (Viewport {
            x: 0,
            y: 0,
            w: (RENDER_RES_W * DEFAULT_SCALE) as u32,
            h: (RENDER_RES_H * DEFAULT_SCALE) as u32,
        }),
        e.render.projection == window_projection(
            RENDER_RES_W * DEFAULT_SCALE,
            RENDER_RES_H * DEFAULT_SCALE,
        ),
        e.render.target == Target::Default,
        e.render.frame_buffer == (FrameBuffer {
            texture: Texture {
                id: 0,
                width: (RENDER_RES_W * DEFAULT_SCALE) as u32,
                height: (RENDER_RES_H * DEFAULT_SCALE) as u32,
            },
        }),
        e.render.commands@ =~= Seq::<DrawCmd>::empty(),
        e.text.queue@ =~= Seq::<TextRequest>::empty(),
        e.offset == (Vector2Int { x: 0, y: 0 }),
{
    let w: i32 = RENDER_RES_W * DEFAULT_SCALE;
    let h: i32 = RENDER_RES_H * DEFAULT_SCALE;
    Engine {
        device: Smol {
            running: true,
            time_step: TimeStep::new(now_micros),
            input: Input::new(),
            delta_time: 0,
            window_size: Vector2Int { x: w, y: h },
        },
        render: Renderer::new(w, h),
        text: TextRenderer::new(),
        offset: Vector2Int { x: 0, y: 0 },
    }
}

/// Ends the frame: the one cohesive end-of-frame operation, in this order —
/// flush the text queue (its draws are stamped with the state the frame ran
/// under), advance the clock into the device's delta time, present (the
/// driver swaps buffers around this call), drain the frame's events in
/// arrival order, and rebuild the input snapshot. `running`, the window
/// size, the viewport and the projection afterwards are exactly the fold of
/// the events over the state before the drain.
pub fn end_render(e: &mut Engine, now_micros: u64, events: &Vec<Event>, snapshot: InputState)
    requires
        old(e).wf(),
        events_wf(events@),
    ensures
        final(e).wf(),
        final(e).text.queue@.len() == 0,
        final(e).render.commands@.len() == old(e).render.commands@.len() + old(
            e,
        ).text.queue@.len(),
        final(e).render.commands@.subrange(0, old(e).render.commands@.len() as int)
            =~= old(e).render.commands@,
        forall|i: int|
            0 <= i < old(e).text.queue@.len() ==> is_text_cmd_of(
                #[trigger] final(e).render.commands@[old(e).render.commands@.len() + i],
                old(e).text.queue@[i],
                old(e).render,
            ),
        final(e).device.delta_time == (if now_micros >= old(e).device.time_step.last_time {
            now_micros - old(e).device.time_step.last_time
        } else {
            0
        }),
        final(e).device.time_step == (TimeStep {
            last_time: now_micros,
            delta_time: final(e).device.delta_time,
            ..old(e).device.time_step
        }),
        ({
            let after = apply_events(old(e).frame_view(), events@);
            final(e).device.running == after.running && final(e).device.window_size
                == after.window_size && final(e).render.viewport == after.viewport
                && final(e).render.projection == after.projection
        }),
        final(e).render.target == old(e).render.target,
        final(e).render.frame_buffer == old(e).render.frame_buffer,
        final(e).device.input.previous == old(e).device.input.current,
        final(e).device.input.current == snapshot,
        final(e).offset == old(e).offset,
{
    let ghost s0 = e.frame_view();

    // 1. Flush the text queue; its commands run under this frame's state.
    e.text.render_queue(&mut e.render);

    // 2. Advance the clock; the driver presents the frame right after this,
    // so resize and input handling below do not skew the measured time.
    let d = e.device.time_step.delta(now_micros);
    e.device.delta_time = d;

    // 3. Drain the frame's events in arrival order.
    let ghost dev0 = e.device;
    let ghost ren0 = e.render;
    let ghost text0 = e.text;
    let ghost off0 = e.offset;
    let mut i: usize = 0;
    while i < events.len()
        invariant
            i <= events@.len(),
            events_wf(events@),
            ({
                let s = apply_events(s0, events@.take(i as int));
                e.device == (Smol { running: s.running, window_size: s.window_size, ..dev0 })
                    && e.render == (Renderer {
                    viewport: s.viewport,
                    projection: s.projection,
                    ..ren0
                })
            }),
            s0.running == dev0.running,
            s0.window_size == dev0.window_size,
            s0.viewport == ren0.viewport,
            s0.projection == ren0.projection,
            e.text == text0,
            e.offset == off0,
        decreases events@.len() - i,
    {
        let ghost s_before = apply_events(s0, events@.take(i as int));
        match &events[i] {
            Event::Quit => {
                e.device.running = false;
            },
            Event::KeyDown { keycode: Some(k) } => {
                if *k == KEYCODE_ESCAPE {
                    e.device.running = false;
                }
            },
            Event::KeyDown { keycode: None } => {},
            Event::WindowResized { width, height } => {
                let w = *width;
                let h = *height;
                proof {
                    assert(events@[i as int].wf());
                }
                e.render.set_viewport(0, 0, w as u32, h as u32);
                e.render.set_projection(w, h);
                e.device.window_size = Vector2Int { x: w, y: h };
            },
            Event::Other => {},
        }
        proof {
            assert(events@.take(i as int + 1) =~= events@.take(i as int).push(events@[i as int]));
            lemma_apply_events_snoc(s0, events@.take(i as int), events@[i as int]);
            assert(apply_events(s0, events@.take(i as int + 1)) == apply_event(
                s_before,
                events@[i as int],
            ));
        }
        i = i + 1;
    }
    proof {
        assert(events@.take(events@.len() as int) =~= events@);
        lemma_apply_events_consistent(s0, events@);
    }

    // 4. Rebuild the input snapshot from the end-of-frame state.
    e.device.input.set_snapshot(snapshot);
}

} // verus!
