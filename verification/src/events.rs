use vstd::prelude::*;

use crate::math::{Matrix, Vector2Int, window_projection};
use crate::render::Viewport;

verus! {

/// The key code the engine treats as a quit request.
pub const KEYCODE_ESCAPE: u32 = 27;

/// A platform event, as the driver hands it to the frame loop. Everything
/// the engine does not act on arrives as `Other` and is consumed through
/// the input snapshot instead.
#[derive(Clone, Debug)]
pub enum Event {
    /// The window manager asked the process to quit.
    Quit,
    /// A key went down; the platform may deliver a key without a code.
    KeyDown { keycode: Option<u32> },
    /// The window was resized to `width` by `height` physical pixels.
    WindowResized { width: i32, height: i32 },
    /// Any event this core ignores.
    Other,
}

impl Event {
    /// A resize event carries a non-degenerate size; the platform never
    /// reports an empty window.
    pub open spec fn wf(self) -> bool {
        match self {
            Event::WindowResized { width, height } => 0 < width && 0 < height,
            _ => true,
        }
    }
}

/// All events of a frame are well-formed.
pub open spec fn events_wf(events: Seq<Event>) -> bool {
    forall|i: int| 0 <= i < events.len() ==> (#[trigger] events[i]).wf()
}

/// Whether this event asks the engine to stop running: a quit event or the
/// escape key going down.
pub open spec fn quit_requested(ev: Event) -> bool {
    match ev {
        Event::Quit => true,
        Event::KeyDown { keycode } => keycode == Some(KEYCODE_ESCAPE),
        _ => false,
    }
}

/// The slice of engine state the event drain may change: the running flag,
/// the recorded window size, and the viewport and projection of the render
/// context.
#[derive(Clone, Copy, Debug)]
pub struct FrameView {
    pub running: bool,
    pub window_size: Vector2Int,
    pub viewport: Viewport,
    pub projection: Matrix,
}

impl FrameView {
    /// The viewport is non-degenerate, anchored at the origin, agrees with
    /// the recorded window size, and the projection is the window
    /// projection for exactly that size.
    pub open spec fn consistent(self) -> bool {
        0 < self.window_size.x && 0 < self.window_size.y
            && self.viewport == (Viewport {
                x: 0,
                y: 0,
                w: self.window_size.x as u32,
                h: self.window_size.y as u32,
            })
            && self.projection == window_projection(
                self.window_size.x as int,
                self.window_size.y as int,
            )
    }
}

/// How one event changes the frame state: a quit request clears the running
/// flag; a resize updates window size, viewport and projection in one step;
/// everything else changes nothing.
pub open spec fn apply_event(s: FrameView, ev: Event) -> FrameView {
    match ev {
        Event::Quit => FrameView { running: false, ..s },
        Event::KeyDown { keycode } => if keycode == Some(KEYCODE_ESCAPE) {
            FrameView { running: false, ..s }
        } else {
            s
        },
        Event::WindowResized { width, height } => FrameView {
            window_size: Vector2Int { x: width, y: height },
            viewport: Viewport { x: 0, y: 0, w: width as u32, h: height as u32 },
            projection: window_projection(width as int, height as int),
            ..s
        },
        Event::Other => s,
    }
}

/// The frame state after draining `events` in arrival order.
pub open spec fn apply_events(s: FrameView, events: Seq<Event>) -> FrameView
    decreases events.len(),
{
    if events.len() == 0 {
        s
    } else {
        apply_events(apply_event(s, events[0]), events.skip(1))
    }
}

/// Draining one more event folds it onto the state reached so far.
pub proof fn lemma_apply_events_snoc(s: FrameView, events: Seq<Event>, ev: Event)
    ensures
        apply_events(s, events.push(ev)) == apply_event(apply_events(s, events), ev),
    decreases events.len(),
{
    if events.len() == 0 {
        assert(events.push(ev)[0] == ev);
        assert(events.push(ev).skip(1) =~= Seq::<Event>::empty());
        assert(apply_events(s, events.push(ev)) == apply_events(
            apply_event(s, ev),
            events.push(ev).skip(1),
        ));
        assert(apply_events(apply_event(s, ev), events.push(ev).skip(1)) == apply_event(s, ev));
    } else {
        assert(events.push(ev)[0] == events[0]);
        assert(events.push(ev).skip(1) =~= events.skip(1).push(ev));
        lemma_apply_events_snoc(apply_event(s, events[0]), events.skip(1), ev);
        assert(apply_events(s, events.push(ev)) == apply_events(
            apply_event(s, events[0]),
            events.skip(1).push(ev),
        ));
        assert(apply_events(s, events) == apply_events(apply_event(s, events[0]), events.skip(1)));
    }
}

/// A resize event updates the viewport and the projection atomically: after
/// it is applied the state is consistent again, so a draw issued right
/// after the drain is stamped with the projection of the new size, never a
/// stale one.
pub proof fn lemma_resize_atomic(s: FrameView, width: i32, height: i32)
    requires
        0 < width,
        0 < height,
    ensures
        ({
            let s1 = apply_event(s, Event::WindowResized { width, height });
            s1.consistent()
                && s1.viewport == (Viewport { x: 0, y: 0, w: width as u32, h: height as u32 })
                && s1.projection == window_projection(width as int, height as int)
                && s1.running == s.running
        }),
{
}

/// Draining events keeps the viewport and projection consistent: whatever
/// arrives during a frame, the next frame's draws run under the projection
/// that matches the viewport.
pub proof fn lemma_apply_events_consistent(s: FrameView, events: Seq<Event>)
    requires
        s.consistent(),
        events_wf(events),
    ensures
        apply_events(s, events).consistent(),
    decreases events.len(),
{
    if events.len() > 0 {
        assert(events[0].wf());
        let s1 = apply_event(s, events[0]);
        assert(s1.consistent());
        assert(events_wf(events.skip(1))) by {
            assert(forall|i: int|
                0 <= i < events.skip(1).len() ==> events.skip(1)[i] == events[i + 1]);
        }
        lemma_apply_events_consistent(s1, events.skip(1));
    }
}

/// The engine keeps running exactly when it was running and no event of the
/// frame requested a quit.
pub proof fn lemma_running_after_events(s: FrameView, events: Seq<Event>)
    ensures
        apply_events(s, events).running <==> (s.running && (forall|i: int|
            0 <= i < events.len() ==> !quit_requested(#[trigger] events[i]))),
    decreases events.len(),
{
    if events.len() > 0 {
        let s1 = apply_event(s, events[0]);
        lemma_running_after_events(s1, events.skip(1));
        assert(s1.running == (s.running && !quit_requested(events[0])));
        let tail = events.skip(1);
        assert((forall|i: int| 0 <= i < events.len() ==> !quit_requested(#[trigger] events[i]))
            == (!quit_requested(events[0]) && (forall|i: int|
            0 <= i < tail.len() ==> !quit_requested(#[trigger] tail[i])))) by {
            if forall|i: int| 0 <= i < events.len() ==> !quit_requested(#[trigger] events[i]) {
                assert(!quit_requested(events[0]));
                assert forall|i: int| 0 <= i < tail.len() implies !quit_requested(
                    #[trigger] tail[i],
                ) by {
                    assert(tail[i] == events[i + 1]);
                }
            }
            if !quit_requested(events[0]) && (forall|i: int|
                0 <= i < tail.len() ==> !quit_requested(#[trigger] tail[i])) {
                assert forall|i: int| 0 <= i < events.len() implies !quit_requested(
                    #[trigger] events[i],
                ) by {
                    if i > 0 {
                        assert(tail[i - 1] == events[i]);
                    }
                }
            }
        };
    }
}

} // verus!
