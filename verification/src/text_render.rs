use vstd::prelude::*;
use vstd::string::StrSliceExecFns;
use vstd::string::StringExecFns;

use crate::render::{Color, DrawCmd, DrawKind, Renderer};

verus! {

/// Horizontal alignment of a queued run of text. The x-offset it induces is
/// applied when the queue is flushed, not when the run is queued.
#[derive(Clone, Copy, Debug, PartialEq, Eq, Structural)]
pub enum TextAlignment {
    /// The position is the left edge of the text.
    Start,
    /// The position is the horizontal center of the text.
    Center,
}

/// Everything `queue_text_ex` takes besides the text itself.
#[derive(Clone, Copy, Debug)]
pub struct TextQueueConfig {
    pub position: crate::math::Vector2Int,
    pub color: Color,
    pub font_size: u32,
    pub horizontal_alignment: TextAlignment,
}

/// The laid-out bounding box of a queued run of text, in screen pixels.
#[derive(Clone, Copy, Debug, PartialEq, Eq, Structural)]
pub struct Rect {
    pub x: i64,
    pub y: i64,
    pub w: u32,
    pub h: u32,
}

/// A pending glyph-draw request: one queued run of text with its layout
/// metadata. The measured width is kept so the flush can center the run.
#[derive(Clone, Debug)]
pub struct TextRequest {
    pub text: String,
    pub x: i64,
    pub y: i64,
    pub font_size: u32,
    pub color: Color,
    pub alignment: TextAlignment,
    pub width: u32,
}

impl TextRequest {
    /// Positions stay far enough from the `i64` edges that the alignment
    /// shift applied at flush time cannot overflow.
    pub open spec fn wf(self) -> bool {
        -0x1_0000_0000 <= self.x <= 0x1_0000_0000 && -0x1_0000_0000 <= self.y <= 0x1_0000_0000
    }
}

/// The width of a laid-out run: every glyph advances half the font size.
pub open spec fn text_width(len: int, font_size: int) -> int {
    len * font_size / 2
}

/// The flush-time x coordinate of a request: centering shifts the position
/// left by half the measured width.
pub open spec fn aligned_x(req: TextRequest) -> int {
    match req.alignment {
        TextAlignment::Start => req.x as int,
        TextAlignment::Center => req.x - req.width / 2,
    }
}

/// `req` queued from exactly these arguments.
pub open spec fn req_matches(
    req: TextRequest,
    text: Seq<char>,
    x: int,
    y: int,
    font_size: u32,
    color: Color,
    alignment: TextAlignment,
) -> bool {
    req.text@ == text && req.x == x && req.y == y && req.font_size == font_size && req.color
        == color && req.alignment == alignment && req.width == text_width(
        text.len() as int,
        font_size as int,
    )
}

/// `cmd` is the draw command the flush emits for `req` under the render
/// state `r`: a text draw at the aligned position, stamped with the target
/// and projection in force when the queue was flushed.
pub open spec fn is_text_cmd_of(cmd: DrawCmd, req: TextRequest, r: Renderer) -> bool {
    cmd.target == r.target && cmd.projection == r.projection && match cmd.kind {
        DrawKind::Text { text, x, y, font_size, color } => {
            text@ == req.text@ && x == aligned_x(req) && y == req.y && font_size
                == req.font_size && color == req.color
        },
        _ => false,
    }
}

/// The text render context: the per-frame queue of pending glyph-draw
/// requests. The queue is flushed into the render context's command list
/// once per frame and never carries over.
pub struct TextRenderer {
    pub queue: Vec<TextRequest>,
}

impl TextRenderer {
    /// Every queued request is well-formed.
    pub open spec fn wf(self) -> bool {
        forall|i: int| 0 <= i < self.queue@.len() ==> (#[trigger] self.queue@[i]).wf()
    }

    /// A context with an empty queue.
    pub fn new() -> (t: TextRenderer)
        ensures
            t.queue@ =~= Seq::<TextRequest>::empty(),
            t.wf(),
    {
        TextRenderer { queue: Vec::new() }
    }

    /// Queues a run of text and returns its bounding box, or `None` — with
    /// nothing queued — when there is nothing to lay out (the text is
    /// empty) or the layout does not fit the box arithmetic.
    pub fn queue_text(
        &mut self,
        text: &str,
        x: i64,
        y: i64,
        font_size: u32,
        color: Color,
        alignment: TextAlignment,
    ) -> (bounds: Option<Rect>)
        requires
            old(self).wf(),
            -0x1_0000_0000 <= x <= 0x1_0000_0000,
            -0x1_0000_0000 <= y <= 0x1_0000_0000,
        ensures
            final(self).wf(),
            ({
                let len = text@.len();
                if len == 0 || len * font_size > u32::MAX {
                    bounds == None::<Rect> && *final(self) == *old(self)
                } else {
                    let width = text_width(len as int, font_size as int) as u32;
                    bounds == Some(Rect { x, y, w: width, h: font_size })
                        && final(self).queue@.len() == old(self).queue@.len() + 1
                        && final(self).queue@.subrange(0, old(self).queue@.len() as int)
                        =~= old(self).queue@
                        && req_matches(
                        final(self).queue@.last(),
                        text@,
                        x as int,
                        y as int,
                        font_size,
                        color,
                        alignment,
                    )
                }
            }),
    {
        let len = text.unicode_len();
        if len == 0 {
            return None;
        }
        proof {
            assert(len <= 0xffff_ffff_ffff_ffff);
            assert((len as int) * (font_size as int) <= 0xffff_ffff_ffff_ffff * 0xffff_ffff)
                by (nonlinear_arith)
                requires
                    0 <= len <= 0xffff_ffff_ffff_ffff,
                    0 <= font_size <= 0xffff_ffff,
            ;
        }
        let prod: u128 = (len as u128) * (font_size as u128);
        if prod > u32::MAX as u128 {
            return None;
        }
        let width: u32 = (prod / 2) as u32;
        let req = TextRequest {
            text: text.to_owned(),
            x,
            y,
            font_size,
            color,
            alignment,
            width,
        };
        self.queue.push(req);
        Some(Rect { x, y, w: width, h: font_size })
    }

    /// Flushes the queue: every pending request becomes one text draw
    /// command in the render context, in queue order, stamped with the
    /// target and projection bound at flush time; the queue is left empty.
    pub fn render_queue(&mut self, renderer: &mut Renderer)
        requires
            old(self).wf(),
        ensures
            final(self).queue@.len() == 0,
            final(self).wf(),
            *final(renderer) == (Renderer {
                commands: final(renderer).commands,
                ..*old(renderer)
            }),
            final(renderer).commands@.len() == old(renderer).commands@.len() + old(
                self,
            ).queue@.len(),
            final(renderer).commands@.subrange(0, old(renderer).commands@.len() as int)
                =~= old(renderer).commands@,
            forall|i: int|
                0 <= i < old(self).queue@.len() ==> is_text_cmd_of(
                    #[trigger] final(renderer).commands@[old(renderer).commands@.len() + i],
                    old(self).queue@[i],
                    *old(renderer),
                ),
    {
        let ghost base = renderer.commands@.len() as int;
        let ghost queued = self.queue@;
        // Pins the queue length to an executable value, so the ghost index
        // below is known to stay within `usize`.
        let queue_len = self.queue.len();
        proof {
            assert(queued.len() == queue_len);
        }
        let mut k: usize = 0;
        while self.queue.len() > 0
            invariant
                base == old(renderer).commands@.len(),
                queued == old(self).queue@,
                k <= queued.len() <= usize::MAX,
                self.queue@ =~= queued.skip(k as int),
                forall|i: int| 0 <= i < queued.len() ==> (#[trigger] queued[i]).wf(),
                *renderer == (Renderer { commands: renderer.commands, ..*old(renderer) }),
                renderer.commands@.len() == base + k,
                renderer.commands@.subrange(0, base) =~= old(renderer).commands@,
                forall|i: int|
                    0 <= i < k ==> is_text_cmd_of(
                        #[trigger] renderer.commands@[base + i],
                        queued[i],
                        *old(renderer),
                    ),
            decreases queued.len() - k,
        {
            let ghost before = renderer.commands@;
            let req = self.queue.remove(0);
            proof {
                assert(queued.skip(k as int)[0] == queued[k as int]);
                assert(req == queued[k as int]);
                assert(req.wf());
                assert(self.queue@ =~= queued.skip(k as int + 1)) by {
                    assert(self.queue@ =~= queued.skip(k as int).skip(1));
                    assert(queued.skip(k as int).skip(1) =~= queued.skip(k as int + 1));
                }
            }
            let ax: i64 = match req.alignment {
                TextAlignment::Start => req.x,
                TextAlignment::Center => req.x - (req.width / 2) as i64,
            };
            let cmd = DrawCmd {
                kind: DrawKind::Text {
                    text: req.text,
                    x: ax,
                    y: req.y,
                    font_size: req.font_size,
                    color: req.color,
                },
                target: renderer.target,
                projection: renderer.projection,
            };
            let ghost gcmd = cmd;
            renderer.commands.push(cmd);
            proof {
                let after = renderer.commands@;
                assert(after == before.push(gcmd));
                assert(before.len() == base + k);
                assert(after.subrange(0, base).len() == base);
                assert(before.subrange(0, base).len() == base);
                assert forall|j: int| 0 <= j < base implies after.subrange(0, base)[j]
                    == before.subrange(0, base)[j] by {
                    assert(after.subrange(0, base)[j] == after[j]);
                    assert(before.subrange(0, base)[j] == before[j]);
                    assert(after[j] == before.push(gcmd)[j]);
                    assert(before.push(gcmd)[j] == before[j]);
                }
                assert(after.subrange(0, base) =~= before.subrange(0, base));
                assert forall|i: int| 0 <= i < k implies #[trigger] after[base + i] == before[base
                    + i] by {
                    assert(after[base + i] == before.push(gcmd)[base + i]);
                    assert(before.push(gcmd)[base + i] == before[base + i]);
                }
                assert(is_text_cmd_of(after[base + k], queued[k as int], *old(renderer)));
            }
            k = k + 1;
        }
        proof {
            assert(queued.skip(queued.len() as int) =~= Seq::<TextRequest>::empty());
        }
    }
}

/// The decimal digit `d` as a character.
pub open spec fn digit_char(d: nat) -> char {
    if d == 0 {
        '0'
    } else if d == 1 {
        '1'
    } else if d == 2 {
        '2'
    } else if d == 3 {
        '3'
    } else if d == 4 {
        '4'
    } else if d == 5 {
        '5'
    } else if d == 6 {
        '6'
    } else if d == 7 {
        '7'
    } else if d == 8 {
        '8'
    } else {
        '9'
    }
}

/// The decimal digits of `n`, most significant first, no leading zeros
/// (except for `n == 0` itself).
pub open spec fn dec_str(n: nat) -> Seq<char>
    decreases n,
{
    if n < 10 {
        seq![digit_char(n)]
    } else {
        dec_str(n / 10).push(digit_char(n % 10))
    }
}

/// The decimal digit `d` as a one-character string slice.
fn digit_str(d: u32) -> (s: &'static str)
    requires
        d < 10,
    ensures
        s@ =~= seq![digit_char(d as nat)],
{
    if d == 0 {
        proof {
            reveal_strlit("0");
        }
        "0"
    } else if d == 1 {
        proof {
            reveal_strlit("1");
        }
        "1"
    } else if d == 2 {
        proof {
            reveal_strlit("2");
        }
        "2"
    } else if d == 3 {
        proof {
            reveal_strlit("3");
        }
        "3"
    } else if d == 4 {
        proof {
            reveal_strlit("4");
        }
        "4"
    } else if d == 5 {
        proof {
            reveal_strlit("5");
        }
        "5"
    } else if d == 6 {
        proof {
            reveal_strlit("6");
        }
        "6"
    } else if d == 7 {
        proof {
            reveal_strlit("7");
        }
        "7"
    } else if d == 8 {
        proof {
            reveal_strlit("8");
        }
        "8"
    } else {
        proof {
            reveal_strlit("9");
        }
        "9"
    }
}

/// Appends the decimal rendering of `n` to `s`.
pub fn push_decimal(s: &mut String, n: u32)
    ensures
        final(s)@ == old(s)@ + dec_str(n as nat),
    decreases n,
{
    if n >= 10 {
        push_decimal(s, n / 10);
    }
    let d = digit_str(n % 10);
    s.append(d);
    proof {
        assert(s@ =~= old(s)@ + dec_str(n as nat));
    }
}

/// Ten to the `k`.
pub open spec fn pow10(k: nat) -> nat
    decreases k,
{
    if k == 0 {
        1
    } else {
        10 * pow10((k - 1) as nat)
    }
}

/// A number below `10^d` has at most `d` decimal digits.
pub proof fn lemma_dec_str_len(n: nat, d: nat)
    requires
        1 <= d,
        n < pow10(d),
    ensures
        dec_str(n).len() <= d,
    decreases d,
{
    if n < 10 {
        assert(dec_str(n).len() == 1);
    } else {
        assert(d > 1) by {
            if d == 1 {
                assert(pow10(1) == 10) by {
                    reveal_with_fuel(pow10, 2);
                }
            }
        }
        assert(pow10(d) == 10 * pow10((d - 1) as nat));
        assert(n / 10 < pow10((d - 1) as nat)) by (nonlinear_arith)
            requires
                n < 10 * pow10((d - 1) as nat),
                n >= 10,
        ;
        lemma_dec_str_len(n / 10, (d - 1) as nat);
        assert(dec_str(n).len() == dec_str(n / 10).len() + 1);
    }
}

/// Every `u32` has at most ten decimal digits.
pub proof fn lemma_dec_str_len_u32(n: u32)
    ensures
        dec_str(n as nat).len() <= 10,
{
    assert(pow10(10) == 10_000_000_000) by {
        reveal_with_fuel(pow10, 11);
    }
    lemma_dec_str_len(n as nat, 10);
}

/// The decimal rendering of `n` as an owned string.
pub fn decimal_string(n: u32) -> (s: String)
    ensures
        s@ == dec_str(n as nat),
{
    let mut s = String::new();
    push_decimal(&mut s, n);
    proof {
        assert(s@ =~= dec_str(n as nat));
    }
    s
}

} // verus!
