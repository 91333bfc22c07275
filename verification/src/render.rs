use vstd::prelude::*;

use crate::math::{Frac, Matrix, Vector2Int, window_projection};

verus! {

/// An RGBA color with 8-bit channels.
#[derive(Clone, Copy, Debug, PartialEq, Eq, Structural)]
pub struct Color {
    pub r: u8,
    pub g: u8,
    pub b: u8,
    pub a: u8,
}

impl Color {
    pub fn rgba(r: u8, g: u8, b: u8, a: u8) -> (c: Color)
        ensures
            c == (Color { r, g, b, a }),
    {
        Color { r, g, b, a }
    }
}

/// An opaque texture handle together with its pixel size. Loading image
/// data and uploading it to the device happen outside the library; the
/// engine only routes handles into draw commands.
#[derive(Clone, Copy, Debug, PartialEq, Eq, Structural)]
pub struct Texture {
    pub id: u32,
    pub width: u32,
    pub height: u32,
}

/// A sub-rectangle of a larger texture (an atlas cell). The source
/// rectangle is a property of the value, not of the draw call.
#[derive(Clone, Copy, Debug, PartialEq, Eq, Structural)]
pub struct PartialTexture {
    pub texture: Texture,
    pub src_x: u32,
    pub src_y: u32,
    pub src_w: u32,
    pub src_h: u32,
}

/// The color target draws currently land on.
#[derive(Clone, Copy, Debug, PartialEq, Eq, Structural)]
pub enum Target {
    /// The window's own framebuffer.
    Default,
    /// The off-screen capture framebuffer.
    Offscreen,
}

/// The device viewport: origin and size in physical pixels.
#[derive(Clone, Copy, Debug, PartialEq, Eq, Structural)]
pub struct Viewport {
    pub x: i32,
    pub y: i32,
    pub w: u32,
    pub h: u32,
}

/// What a single draw call draws.
#[derive(Clone, Debug)]
pub enum DrawKind {
    /// Clear the bound target to a color.
    Clear { color: Color },
    /// A filled axis-aligned rectangle.
    Rect { x: i64, y: i64, w: i64, h: i64, color: Color },
    /// A textured quad at a position, each axis scaled by a fraction.
    TexturedQuad { texture: Texture, x: i64, y: i64, scale_x: Frac, scale_y: Frac },
    /// A sub-rectangle of a texture drawn at a position.
    PartialQuad { texture: PartialTexture, x: i64, y: i64 },
    /// A run of laid-out text.
    Text { text: String, x: i64, y: i64, font_size: u32, color: Color },
}

/// One draw call, stamped with the render state it must execute under: the
/// target it lands on and the projection in force when it was issued.
#[derive(Clone, Debug)]
pub struct DrawCmd {
    pub kind: DrawKind,
    pub target: Target,
    pub projection: Matrix,
}

/// The off-screen color target and its backing texture.
#[derive(Clone, Copy, Debug, PartialEq, Eq, Structural)]
pub struct FrameBuffer {
    pub texture: Texture,
}

/// The render context: viewport, projection, capture target and the draw
/// commands recorded this frame. A driver drains the commands with
/// [`Renderer::take_commands`] and executes them on the device.
pub struct Renderer {
    pub viewport: Viewport,
    pub projection: Matrix,
    pub target: Target,
    pub frame_buffer: FrameBuffer,
    pub commands: Vec<DrawCmd>,
}

/// `r` with the capture released: only the target changes, back to the
/// default framebuffer.
pub open spec fn unbound(r: Renderer) -> Renderer {
    Renderer { target: Target::Default, ..r }
}

impl Renderer {
    /// The viewport is non-degenerate and the projection is exactly the
    /// window projection for the viewport's size: a resize must update both
    /// together, so a draw never runs under a stale projection.
    pub open spec fn wf(self) -> bool {
        0 < self.viewport.w <= i32::MAX && 0 < self.viewport.h <= i32::MAX
            && self.projection == window_projection(self.viewport.w as int, self.viewport.h as int)
    }

    /// `kind` stamped with the current target and projection.
    pub open spec fn stamped(self, kind: DrawKind) -> DrawCmd {
        DrawCmd { kind, target: self.target, projection: self.projection }
    }

    /// A fresh context sized to a `w` by `h` window, drawing to the default
    /// target, with an off-screen capture framebuffer of the same size.
    pub fn new(w: i32, h: i32) -> (r: Renderer)
        requires
            0 < w,
            0 < h,
        ensures
            r.viewport == (Viewport { x: 0, y: 0, w: w as u32, h: h as u32 }),
            r.projection == window_projection(w as int, h as int),
            r.target == Target::Default,
            r.frame_buffer == (FrameBuffer {
                texture: Texture { id: 0, width: w as u32, height: h as u32 },
            }),
            r.commands@ =~= Seq::<DrawCmd>::empty(),
            r.wf(),
    {
        Renderer {
            viewport: Viewport { x: 0, y: 0, w: w as u32, h: h as u32 },
            projection: Matrix::ortho(0, w, h, 0, -100, 100),
            target: Target::Default,
            frame_buffer: FrameBuffer {
                texture: Texture { id: 0, width: w as u32, height: h as u32 },
            },
            commands: Vec::new(),
        }
    }

    /// Updates the device viewport. The caller owes a matching
    /// `set_projection`: the two must change together.
    pub fn set_viewport(&mut self, x: i32, y: i32, w: u32, h: u32)
        ensures
            *final(self) == (Renderer { viewport: Viewport { x, y, w, h }, ..*old(self) }),
    {
        self.viewport = Viewport { x, y, w, h };
    }

    /// Installs the window projection for a `w` by `h` window.
    pub fn set_projection(&mut self, w: i32, h: i32)
        requires
            0 < w,
            0 < h,
        ensures
            *final(self) == (Renderer {
                projection: window_projection(w as int, h as int),
                ..*old(self)
            }),
    {
        self.projection = Matrix::ortho(0, w, h, 0, -100, 100);
    }

    /// Records a clear of the currently bound target.
    pub fn clear(&mut self, color: Color)
        ensures
            *final(self) == (Renderer {
                commands: final(self).commands,
                ..*old(self)
            }),
            final(self).commands@ == old(self).commands@.push(
                old(self).stamped(DrawKind::Clear { color }),
            ),
    {
        let cmd = DrawCmd {
            kind: DrawKind::Clear { color },
            target: self.target,
            projection: self.projection,
        };
        self.commands.push(cmd);
    }

    /// Records a filled rectangle at `(x, y)` of size `width` by `height`.
    pub fn rect(&mut self, width: i64, height: i64, x: i64, y: i64, color: Color)
        ensures
            *final(self) == (Renderer {
                commands: final(self).commands,
                ..*old(self)
            }),
            final(self).commands@ == old(self).commands@.push(
                old(self).stamped(DrawKind::Rect { x, y, w: width, h: height, color }),
            ),
    {
        let cmd = DrawCmd {
            kind: DrawKind::Rect { x, y, w: width, h: height, color },
            target: self.target,
            projection: self.projection,
        };
        self.commands.push(cmd);
    }

    /// Records a textured quad scaled by `scale_x` and `scale_y`.
    pub fn texture_scale_xy(&mut self, texture: &Texture, position: Vector2Int, scale_x: Frac, scale_y: Frac)
        ensures
            *final(self) == (Renderer {
                commands: final(self).commands,
                ..*old(self)
            }),
            final(self).commands@ == old(self).commands@.push(
                old(self).stamped(DrawKind::TexturedQuad {
                    texture: *texture,
                    x: position.x as i64,
                    y: position.y as i64,
                    scale_x,
                    scale_y,
                }),
            ),
    {
        let cmd = DrawCmd {
            kind: DrawKind::TexturedQuad {
                texture: *texture,
                x: position.x as i64,
                y: position.y as i64,
                scale_x,
                scale_y,
            },
            target: self.target,
            projection: self.projection,
        };
        self.commands.push(cmd);
    }

    /// Records a textured quad with a uniform scale.
    pub fn texture_scale(&mut self, texture: &Texture, position: Vector2Int, scale: Frac)
        ensures
            *final(self) == (Renderer {
                commands: final(self).commands,
                ..*old(self)
            }),
            final(self).commands@ == old(self).commands@.push(
                old(self).stamped(DrawKind::TexturedQuad {
                    texture: *texture,
                    x: position.x as i64,
                    y: position.y as i64,
                    scale_x: scale,
                    scale_y: scale,
                }),
            ),
    {
        self.texture_scale_xy(texture, position, scale, scale)
    }

    /// Records a textured quad at its natural size.
    pub fn texture(&mut self, texture: &Texture, position: Vector2Int)
        ensures
            *final(self) == (Renderer {
                commands: final(self).commands,
                ..*old(self)
            }),
            final(self).commands@ == old(self).commands@.push(
                old(self).stamped(DrawKind::TexturedQuad {
                    texture: *texture,
                    x: position.x as i64,
                    y: position.y as i64,
                    scale_x: Frac { num: 1, den: 1 },
                    scale_y: Frac { num: 1, den: 1 },
                }),
            ),
    {
        self.texture_scale_xy(texture, position, Frac::one(), Frac::one())
    }

    /// Records a draw of an atlas cell.
    pub fn render_texture_partial(&mut self, texture: &PartialTexture, position: Vector2Int)
        ensures
            *final(self) == (Renderer {
                commands: final(self).commands,
                ..*old(self)
            }),
            final(self).commands@ == old(self).commands@.push(
                old(self).stamped(DrawKind::PartialQuad {
                    texture: *texture,
                    x: position.x as i64,
                    y: position.y as i64,
                }),
            ),
    {
        let cmd = DrawCmd {
            kind: DrawKind::PartialQuad {
                texture: *texture,
                x: position.x as i64,
                y: position.y as i64,
            },
            target: self.target,
            projection: self.projection,
        };
        self.commands.push(cmd);
    }

    /// Redirects subsequent draws to the off-screen capture target.
    pub fn bind_framebuffer(&mut self)
        ensures
            *final(self) == (Renderer { target: Target::Offscreen, ..*old(self) }),
    {
        self.target = Target::Offscreen;
    }

    /// Restores the default target, whatever target was bound and whatever
    /// was or was not drawn since the capture began.
    pub fn unbind_framebuffer(&mut self)
        ensures
            *final(self) == unbound(*old(self)),
    {
        self.target = Target::Default;
    }

    /// Hands the frame's recorded draw commands to the driver and starts an
    /// empty command list.
    pub fn take_commands(&mut self) -> (cmds: Vec<DrawCmd>)
        ensures
            cmds@ == old(self).commands@,
            *final(self) == (Renderer { commands: final(self).commands, ..*old(self) }),
            final(self).commands@ =~= Seq::<DrawCmd>::empty(),
    {
        let mut out: Vec<DrawCmd> = Vec::new();
        core::mem::swap(&mut out, &mut self.commands);
        proof {
            assert(out@ =~= old(self).commands@);
        }
        out
    }
}

/// Releasing the capture leaves the default target bound no matter what
/// state the context was in, so a draw stamped after the release always
/// lands on the default target and never on the off-screen one.
pub proof fn lemma_capture_release_scoped(r: Renderer, kind: DrawKind)
    ensures
        unbound(r).target == Target::Default,
        unbound(r).stamped(kind).target == Target::Default,
{
}

} // verus!
