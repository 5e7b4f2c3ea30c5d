//! Pixel graphics over an in-memory frame buffer: a 16-bit 5-6-5 colour
//! value, a raw pixel context, and a drawing system with a current colour.

use vstd::prelude::*;

verus! {

/// A 5-6-5 colour: five bits of red, six of green, five of blue, stored
/// as the channel values themselves.
#[derive(Debug, Clone, Copy, PartialEq, Eq, Structural)]
pub struct Rgb565 {
    pub r5: u8,
    pub g6: u8,
    pub b5: u8,
}

impl Rgb565 {
    /// Create a colour; channel values too large for their width lose
    /// their most significant bits.
    pub fn new(r: u8, g: u8, b: u8) -> (c: Self)
        ensures
            c.r5 == r & 0x1F,
            c.g6 == g & 0x3F,
            c.b5 == b & 0x1F,
    {
        Self { r5: r & 0x1F, g6: g & 0x3F, b5: b & 0x1F }
    }

    /// The red channel (five bits).
    pub fn r(&self) -> (v: u8)
        ensures
            v == self.r5,
    {
        self.r5
    }

    /// The green channel (six bits).
    pub fn g(&self) -> (v: u8)
        ensures
            v == self.g6,
    {
        self.g6
    }

    /// The blue channel (five bits).
    pub fn b(&self) -> (v: u8)
        ensures
            v == self.b5,
    {
        self.b5
    }

    /// White: every channel at its maximum.
    pub fn white() -> (c: Self)
        ensures
            c == (Rgb565 { r5: 0x1F, g6: 0x3F, b5: 0x1F }),
    {
        Self { r5: 0x1F, g6: 0x3F, b5: 0x1F }
    }

    /// Black: every channel at zero.
    pub fn black() -> (c: Self)
        ensures
            c == (Rgb565 { r5: 0, g6: 0, b5: 0 }),
    {
        Self { r5: 0, g6: 0, b5: 0 }
    }
}

/// A raw pixel context: a width-by-height frame of 24-bit pixels stored
/// as three bytes each.
pub struct GraphicsContext {
    pub width: u32,
    pub height: u32,
    pub buffer: Vec<u8>,
}

/// The context's buffer holds three bytes per pixel.
pub open spec fn ctx_wf(c: GraphicsContext) -> bool {
    &&& c.buffer@.len() == c.width * c.height * 3
    &&& c.width * c.height * 3 <= usize::MAX
}

impl GraphicsContext {
    /// Create a zeroed frame.
    pub fn new(width: u32, height: u32) -> (r: Self)
        requires
            width * height * 3 <= usize::MAX,
        ensures
            ctx_wf(r),
            r.width == width,
            r.height == height,
    {
        proof {
            assert(width * height * 3 >= 0) by (nonlinear_arith);
        }
        let count = (width as usize) * (height as usize) * 3;
        let mut buffer: Vec<u8> = Vec::new();
        let mut i: usize = 0;
        while i < count
            invariant
                0 <= i <= count,
                buffer@.len() == i,
            decreases count - i,
        {
            buffer.push(0);
            i = i + 1;
        }
        Self { width, height, buffer }
    }

    /// The byte offset of a pixel.
    pub open spec fn pixel_index(&self, x: u32, y: u32) -> int {
        (y * self.width + x) * 3
    }

    /// Store a colour at a pixel; writes outside the frame are ignored.
    /// The channels are reduced to the frame's byte format.
    pub fn set_pixel(&mut self, x: u32, y: u32, color: Rgb565)
        requires
            ctx_wf(*old(self)),
        ensures
            ctx_wf(*final(self)),
            final(self).width == old(self).width,
            final(self).height == old(self).height,
            x < old(self).width && y < old(self).height ==> {
                let base = old(self).pixel_index(x, y);
                final(self).buffer@ =~= old(self).buffer@.update(base, (color.r5 >> 3) as u8).update(
                    base + 1,
                    (color.g6 >> 2) as u8,
                ).update(base + 2, (color.b5 >> 3) as u8)
            },
            !(x < old(self).width && y < old(self).height) ==> final(self).buffer@ =~= old(self).buffer@,
    {
        if x < self.width && y < self.height {
            proof {
                assert(y * self.width + x < self.width * self.height) by (nonlinear_arith)
                    requires
                        x < self.width,
                        y < self.height,
                ;
                assert((y * self.width + x) * 3 + 2 < self.width * self.height * 3)
                    by (nonlinear_arith)
                    requires
                        y * self.width + x < self.width * self.height,
                ;
            }
            let index = ((y as usize) * (self.width as usize) + (x as usize)) * 3;
            self.buffer[index] = color.r() >> 3;
            self.buffer[index + 1] = color.g() >> 2;
            self.buffer[index + 2] = color.b() >> 3;
        }
    }

    /// Read a pixel back; outside the frame there is nothing.  The
    /// channels come back widened from the frame's byte format and then
    /// masked to their widths.
    pub fn get_pixel(&self, x: u32, y: u32) -> (r: Option<Rgb565>)
        requires
            ctx_wf(*self),
        ensures
            r is Some <==> x < self.width && y < self.height,
            r matches Some(c) ==> {
                let base = self.pixel_index(x, y);
                c == (Rgb565 {
                    r5: (((self.buffer@[base] as u16) << 3) as u8) & 0x1F,
                    g6: (((self.buffer@[base + 1] as u16) << 2) as u8) & 0x3F,
                    b5: (((self.buffer@[base + 2] as u16) << 3) as u8) & 0x1F,
                })
            },
    {
        if x < self.width && y < self.height {
            proof {
                assert(y * self.width + x < self.width * self.height) by (nonlinear_arith)
                    requires
                        x < self.width,
                        y < self.height,
                ;
                assert((y * self.width + x) * 3 + 2 < self.width * self.height * 3)
                    by (nonlinear_arith)
                    requires
                        y * self.width + x < self.width * self.height,
                ;
            }
            let index = ((y as usize) * (self.width as usize) + (x as usize)) * 3;
            let r = (self.buffer[index] as u16) << 3;
            let g = (self.buffer[index + 1] as u16) << 2;
            let b = (self.buffer[index + 2] as u16) << 3;
            Some(Rgb565::new(#[verifier::truncate] (r as u8), #[verifier::truncate] (g as u8), #[verifier::truncate] (b as u8)))
        } else {
            None
        }
    }

    /// Fill the whole frame with one colour: every pixel's three bytes
    /// hold the colour's reduced channels.
    pub fn clear(&mut self, color: Rgb565)
        requires
            ctx_wf(*old(self)),
        ensures
            ctx_wf(*final(self)),
            final(self).width == old(self).width,
            final(self).height == old(self).height,
            forall|k: int|
                0 <= k < final(self).buffer@.len() ==> #[trigger] final(self).buffer@[k] == (if k
                    % 3 == 0 {
                    (color.r5 >> 3) as u8
                } else if k % 3 == 1 {
                    (color.g6 >> 2) as u8
                } else {
                    (color.b5 >> 3) as u8
                }),
    {
        let n = self.buffer.len();
        proof {
            assert(n as int % 3 == 0) by (nonlinear_arith)
                requires
                    n == self.width * self.height * 3,
            ;
        }
        let mut i: usize = 0;
        while i < n && n - i > 2
            invariant
                ctx_wf(*self),
                self.width == old(self).width,
                self.height == old(self).height,
                n == self.buffer@.len(),
                n as int % 3 == 0,
                0 <= i <= n,
                i as int % 3 == 0,
                forall|k: int|
                    0 <= k < i ==> #[trigger] self.buffer@[k] == (if k % 3 == 0 {
                        (color.r5 >> 3) as u8
                    } else if k % 3 == 1 {
                        (color.g6 >> 2) as u8
                    } else {
                        (color.b5 >> 3) as u8
                    }),
            decreases n - i,
        {
            self.buffer[i] = color.r() >> 3;
            self.buffer[i + 1] = color.g() >> 2;
            self.buffer[i + 2] = color.b() >> 3;
            proof {
                assert((i as int + 1) % 3 == 1 && (i as int + 2) % 3 == 2 && (i as int + 3) % 3
                    == 0) by (nonlinear_arith)
                    requires
                        i as int % 3 == 0,
                ;
            }
            i = i + 3;
        }
        proof {
            // The loop stops within two bytes of the end; with a length
            // divisible by three that is exactly the end.
            assert(i == n) by (nonlinear_arith)
                requires
                    i as int % 3 == 0,
                    n as int % 3 == 0,
                    i <= n,
                    i >= n || n - i <= 2,
            ;
        }
    }

    /// Draw a filled rectangle; parts outside the frame are clipped.
    pub fn draw_rectangle(&mut self, x: u32, y: u32, width: u32, height: u32, color: Rgb565)
        requires
            ctx_wf(*old(self)),
            x + width <= u32::MAX,
            y + height <= u32::MAX,
        ensures
            ctx_wf(*final(self)),
            final(self).width == old(self).width,
            final(self).height == old(self).height,
    {
        let mut dy: u32 = 0;
        while dy < height
            invariant
                ctx_wf(*self),
                self.width == old(self).width,
                self.height == old(self).height,
                0 <= dy <= height,
                x + width <= u32::MAX,
                y + height <= u32::MAX,
            decreases height - dy,
        {
            let mut dx: u32 = 0;
            while dx < width
                invariant
                    ctx_wf(*self),
                    self.width == old(self).width,
                    self.height == old(self).height,
                    0 <= dx <= width,
                    dy < height,
                    x + width <= u32::MAX,
                    y + height <= u32::MAX,
                decreases width - dx,
            {
                self.set_pixel(x + dx, y + dy, color);
                dx = dx + 1;
            }
            dy = dy + 1;
        }
    }

    /// Draw a filled circle; parts outside the frame are clipped.  The
    /// radius bound keeps the squared-distance test inside 32-bit range,
    /// as the classic arithmetic demands.
    pub fn draw_circle(&mut self, center_x: u32, center_y: u32, radius: u32, color: Rgb565)
        requires
            ctx_wf(*old(self)),
            radius <= 32767,
        ensures
            ctx_wf(*final(self)),
            final(self).width == old(self).width,
            final(self).height == old(self).height,
    {
        let mut dy: u32 = 0;
        while dy < radius * 2
            invariant
                ctx_wf(*self),
                self.width == old(self).width,
                self.height == old(self).height,
                radius <= 32767,
                0 <= dy <= radius * 2,
            decreases radius * 2 - dy,
        {
            let mut dx: u32 = 0;
            while dx < radius * 2
                invariant
                    ctx_wf(*self),
                    self.width == old(self).width,
                    self.height == old(self).height,
                    radius <= 32767,
                    dy < radius * 2,
                    0 <= dx <= radius * 2,
                decreases radius * 2 - dx,
            {
                let x = dx as i64 - radius as i64;
                let y = dy as i64 - radius as i64;
                proof {
                    assert(x * x <= 32767 * 32767 && y * y <= 32767 * 32767 && x * x >= 0 && y * y
                        >= 0 && (radius as i64) * (radius as i64) <= 32767 * 32767)
                        by (nonlinear_arith)
                        requires
                            -32767 <= x <= 32767,
                            -32767 <= y <= 32767,
                            0 <= radius <= 32767,
                    ;
                }
                if x * x + y * y <= (radius as i64) * (radius as i64) {
                    let px = center_x as i64 + x;
                    let py = center_y as i64 + y;
                    if px >= 0 && py >= 0 {
                        self.set_pixel(
                            #[verifier::truncate] (px as u32),
                            #[verifier::truncate] (py as u32),
                            color,
                        );
                    }
                }
                dx = dx + 1;
            }
            dy = dy + 1;
        }
    }

    /// Draw a line between two points; the walk is capped at the taxicab
    /// distance of the endpoints, which the step rule never exceeds.  The
    /// distance bound keeps the doubled error term inside 32-bit range,
    /// as the classic arithmetic demands.
    pub fn draw_line(&mut self, x1: u32, y1: u32, x2: u32, y2: u32, color: Rgb565)
        requires
            ctx_wf(*old(self)),
            (if x2 >= x1 {
                x2 - x1
            } else {
                x1 - x2
            }) + (if y2 >= y1 {
                y2 - y1
            } else {
                y1 - y2
            }) < 0x4000_0000,
        ensures
            ctx_wf(*final(self)),
            final(self).width == old(self).width,
            final(self).height == old(self).height,
    {
        let dx = if x2 >= x1 {
            (x2 - x1) as i64
        } else {
            (x1 - x2) as i64
        };
        let dy = if y2 >= y1 {
            (y2 - y1) as i64
        } else {
            (y1 - y2) as i64
        };
        let sx: i64 = if x1 < x2 {
            1
        } else {
            -1
        };
        let sy: i64 = if y1 < y2 {
            1
        } else {
            -1
        };
        let mut err: i64 = dx - dy;
        let mut x = x1 as i64;
        let mut y = y1 as i64;
        let mut steps: u64 = 0;
        let cap: u64 = (dx + dy) as u64 + 1;
        while steps < cap
            invariant
                ctx_wf(*self),
                self.width == old(self).width,
                self.height == old(self).height,
                0 <= dx,
                0 <= dy,
                dx + dy < 0x4000_0000,
                cap == dx + dy + 1,
                steps <= cap,
                -(steps as int) <= x - x1 <= steps as int,
                -(steps as int) <= y - y1 <= steps as int,
                0 <= x1 <= u32::MAX,
                0 <= y1 <= u32::MAX,
                sx == 1 || sx == -1,
                sy == 1 || sy == -1,
                -((dx + dy) * (steps as int + 1)) <= err <= (dx + dy) * (steps as int + 1),
            decreases cap - steps,
        {
            proof {
                assert((dx + dy) * (steps as int + 1) <= (dx + dy) * (cap as int + 1))
                    by (nonlinear_arith)
                    requires
                        0 <= dx + dy,
                        steps as int + 1 <= cap as int + 1,
                ;
                assert((dx + dy) * (cap as int + 1) <= 0x4000_0000 * (0x4000_0002 as int))
                    by (nonlinear_arith)
                    requires
                        0 <= dx + dy <= 0x4000_0000,
                        0 <= cap as int + 1 <= 0x4000_0002,
                ;
                assert((dx + dy) * (steps as int + 2) == (dx + dy) * (steps as int + 1) + (dx + dy))
                    by (nonlinear_arith);
            }
            if x >= 0 && y >= 0 {
                self.set_pixel(
                    #[verifier::truncate] (x as u32),
                    #[verifier::truncate] (y as u32),
                    color,
                );
            }
            if x == x2 as i64 && y == y2 as i64 {
                break ;
            }
            let e2 = 2 * err;
            if e2 > -dy {
                err = err - dy;
                x = x + sx;
            }
            if e2 < dx {
                err = err + dx;
                y = y + sy;
            }
            steps = steps + 1;
        }
    }
}

/// The drawing system: a context plus the current and background colours.
pub struct GraphicsSystem {
    pub context: GraphicsContext,
    pub current_color: Rgb565,
    pub background_color: Rgb565,
}

impl GraphicsSystem {
    /// Create a system over a fresh frame, drawing white on black.
    pub fn new(width: u32, height: u32) -> (r: Self)
        requires
            width * height * 3 <= usize::MAX,
        ensures
            ctx_wf(r.context),
            r.context.width == width,
            r.context.height == height,
            r.current_color == (Rgb565 { r5: 0x1F, g6: 0x3F, b5: 0x1F }),
            r.background_color == (Rgb565 { r5: 0, g6: 0, b5: 0 }),
    {
        Self {
            context: GraphicsContext::new(width, height),
            current_color: Rgb565::white(),
            background_color: Rgb565::black(),
        }
    }

    /// Set the drawing colour.
    pub fn set_color(&mut self, color: Rgb565)
        ensures
            *final(self) == (GraphicsSystem { current_color: color, ..*old(self) }),
    {
        self.current_color = color;
    }

    /// Set the background colour.
    pub fn set_background_color(&mut self, color: Rgb565)
        ensures
            *final(self) == (GraphicsSystem { background_color: color, ..*old(self) }),
    {
        self.background_color = color;
    }

    /// Fill the frame with the background colour.
    pub fn clear(&mut self)
        requires
            ctx_wf(old(self).context),
        ensures
            ctx_wf(final(self).context),
            final(self).context.width == old(self).context.width,
            final(self).context.height == old(self).context.height,
            final(self).current_color == old(self).current_color,
            final(self).background_color == old(self).background_color,
    {
        let color = self.background_color;
        self.context.clear(color);
    }

    /// Draw a filled rectangle in the current colour.
    pub fn draw_rectangle(&mut self, x: u32, y: u32, width: u32, height: u32)
        requires
            ctx_wf(old(self).context),
            x + width <= u32::MAX,
            y + height <= u32::MAX,
        ensures
            ctx_wf(final(self).context),
            final(self).context.width == old(self).context.width,
            final(self).context.height == old(self).context.height,
            final(self).current_color == old(self).current_color,
            final(self).background_color == old(self).background_color,
    {
        let color = self.current_color;
        self.context.draw_rectangle(x, y, width, height, color);
    }

    /// Draw a filled circle in the current colour.
    pub fn draw_circle(&mut self, center_x: u32, center_y: u32, radius: u32)
        requires
            ctx_wf(old(self).context),
            radius <= 32767,
        ensures
            ctx_wf(final(self).context),
            final(self).context.width == old(self).context.width,
            final(self).context.height == old(self).context.height,
            final(self).current_color == old(self).current_color,
            final(self).background_color == old(self).background_color,
    {
        let color = self.current_color;
        self.context.draw_circle(center_x, center_y, radius, color);
    }

    /// Draw a line in the current colour.
    pub fn draw_line(&mut self, x1: u32, y1: u32, x2: u32, y2: u32)
        requires
            ctx_wf(old(self).context),
            (if x2 >= x1 {
                x2 - x1
            } else {
                x1 - x2
            }) + (if y2 >= y1 {
                y2 - y1
            } else {
                y1 - y2
            }) < 0x4000_0000,
        ensures
            ctx_wf(final(self).context),
            final(self).context.width == old(self).context.width,
            final(self).context.height == old(self).context.height,
            final(self).current_color == old(self).current_color,
            final(self).background_color == old(self).background_color,
    {
        let color = self.current_color;
        self.context.draw_line(x1, y1, x2, y2, color);
    }

    /// Draw a text in the current colour, eight pixels per glyph.  The
    /// vertical bound leaves room for a glyph's eight-pixel strokes, as
    /// the stroke arithmetic demands; the column is carried wide, so the
    /// start column is free.
    pub fn draw_text(&mut self, x: u32, y: u32, text: &str)
        requires
            ctx_wf(old(self).context),
            y <= u32::MAX - 8,
        ensures
            ctx_wf(final(self).context),
            final(self).context.width == old(self).context.width,
            final(self).context.height == old(self).context.height,
            final(self).current_color == old(self).current_color,
            final(self).background_color == old(self).background_color,
    {
        let n = text.unicode_len();
        let mut i: usize = 0;
        while i < n
            invariant
                ctx_wf(self.context),
                self.context.width == old(self).context.width,
                self.context.height == old(self).context.height,
                self.current_color == old(self).current_color,
                self.background_color == old(self).background_color,
                n == text@.len(),
                y <= u32::MAX - 8,
                0 <= i <= n,
            decreases n - i,
        {
            let ch = text.get_char(i);
            // A glyph at or past the 2^29th column starts beyond any
            // 32-bit frame width, so only the earlier ones are drawn.
            if i < 0x2000_0000 {
                proof {
                    assert((i as u64) * 8 < 0x1_0000_0000) by (nonlinear_arith)
                        requires
                            0 <= i < 0x2000_0000,
                    ;
                }
                let char_x = x as u64 + (i as u64) * 8;
                if char_x < self.context.width as u64 && char_x <= (u32::MAX - 8) as u64 {
                    self.draw_character(#[verifier::truncate] (char_x as u32), y, ch);
                }
            }
            i = i + 1;
        }
    }

    /// Draw one glyph: a few strokes for the known letters, a filled
    /// square for the rest.  The bounds leave room for the eight-pixel
    /// strokes, as the stroke arithmetic demands.
    fn draw_character(&mut self, x: u32, y: u32, ch: char)
        requires
            ctx_wf(old(self).context),
            x <= u32::MAX - 8,
            y <= u32::MAX - 8,
        ensures
            ctx_wf(final(self).context),
            final(self).context.width == old(self).context.width,
            final(self).context.height == old(self).context.height,
            final(self).current_color == old(self).current_color,
            final(self).background_color == old(self).background_color,
    {
        if ch == 'A' {
            self.draw_line(x + 4, y + 8, x, y);
            self.draw_line(x + 4, y + 8, x + 8, y);
            self.draw_line(x + 1, y + 4, x + 7, y + 4);
        } else if ch == 'B' {
            self.draw_line(x, y, x, y + 8);
            self.draw_line(x, y, x + 6, y);
            self.draw_line(x, y + 4, x + 6, y + 4);
            self.draw_line(x, y + 8, x + 6, y + 8);
            self.draw_line(x + 6, y, x + 6, y + 4);
            self.draw_line(x + 6, y + 4, x + 6, y + 8);
        } else {
            self.draw_rectangle(x, y, 8, 8);
        }
    }
}

} // verus!
