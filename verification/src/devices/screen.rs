use crate::system::Diagnostic;
use crate::uxn::{Machine, UXN};
use vstd::prelude::*;
use vstd::slice::slice_subrange;

verus! {

/// A colour of the palette.
#[derive(Clone, Copy, Debug, PartialEq, Eq, Structural)]
pub struct Rgb {
    pub r: u8,
    pub g: u8,
    pub b: u8,
}

/// What a pixel holds that shows the layer below it. The values below it are
/// the four colour indices.
pub const TRANSPARENT: u8 = 4;

/// Colour index of a sprite pixel, by pixel class (rows 0 to 3) and colour
/// selector; row 4 tells for each selector whether class 0 is drawn.
pub const BLENDING: [[u8; 16]; 5] = [
    [0, 0, 0, 0, 1, 0, 1, 1, 2, 2, 0, 2, 3, 3, 3, 0],
    [0, 1, 2, 3, 0, 1, 2, 3, 0, 1, 2, 3, 0, 1, 2, 3],
    [1, 2, 3, 1, 1, 2, 3, 1, 1, 2, 3, 1, 1, 2, 3, 1],
    [2, 3, 1, 2, 2, 3, 1, 2, 2, 3, 1, 2, 2, 3, 1, 2],
    [1, 1, 1, 1, 1, 0, 1, 1, 1, 1, 0, 1, 1, 1, 1, 0],
];

pub struct ScreenDevice {
    // width and height of the device
    pub width: u32,
    pub height: u32,
    // foreground and background layers, row after row
    pub fg: Vec<u8>,
    pub bg: Vec<u8>,
    // address of the vector
    pub vector: usize,
    // address in memory of the sprite to draw
    pub addr: usize,
    // coords of the next pixel to write
    pub x: u16,
    pub y: u16,
    // true when the layers have changed since they were last shown
    pub redraw: bool,
    // system colors
    pub color0: Rgb,
    pub color1: Rgb,
    pub color2: Rgb,
    pub color3: Rgb,
}

/// The screen as a value: what `ScreenDevice` holds, with its layers as
/// sequences.
pub ghost struct Screen {
    pub width: u32,
    pub height: u32,
    pub fg: Seq<u8>,
    pub bg: Seq<u8>,
    pub vector: usize,
    pub addr: usize,
    pub x: u16,
    pub y: u16,
    pub redraw: bool,
    pub color0: Rgb,
    pub color1: Rgb,
    pub color2: Rgb,
    pub color3: Rgb,
}

impl View for ScreenDevice {
    type V = Screen;

    open spec fn view(&self) -> Screen {
        Screen {
            width: self.width,
            height: self.height,
            fg: self.fg@,
            bg: self.bg@,
            vector: self.vector,
            addr: self.addr,
            x: self.x,
            y: self.y,
            redraw: self.redraw,
            color0: self.color0,
            color1: self.color1,
            color2: self.color2,
            color3: self.color3,
        }
    }
}

/// What a layer stores for a colour index: on the foreground index 0 shows
/// the background, and so does anything that is no index, on either layer.
pub open spec fn cell(color: u8, layer: u8) -> u8 {
    if color > 3 || (layer != 0 && color == 0) {
        TRANSPARENT
    } else {
        color
    }
}

/// Distance from `origin` up to `p`, counted as the 16-bit cursor counts.
pub open spec fn offset(origin: u16, p: int) -> int {
    (p - origin) % 0x10000
}

/// Pixel class of a tile's cell: bit `7 - h` of row `v` of the first plane,
/// and above it, in a two-plane tile, the same bit of the second.
pub open spec fn tile_class(sprite: Seq<u8>, twobpp: u8, v: int, h: int) -> u8 {
    let lo = (sprite[v] >> ((7 - h) as u8)) & 1;
    let hi = if twobpp == 1 {
        (sprite[v + 8] >> ((7 - h) as u8)) & 1
    } else {
        0
    };
    lo | (hi << 1)
}

/// What a pixel at (`px`, `py`) holds after a tile was drawn with its corner
/// at (`x`, `y`), where it held `before`. The tile covers the eight columns
/// and rows counted from the corner; a flip turns the tile's own columns, or
/// rows, round. A cell of class 0 is drawn only where `opaque` is set.
pub open spec fn blit_pixel(
    before: u8,
    px: int,
    py: int,
    layer: u8,
    x: u16,
    y: u16,
    sprite: Seq<u8>,
    color: usize,
    flipx: u8,
    flipy: u8,
    twobpp: u8,
    opaque: u8,
) -> u8 {
    let kx = offset(x, px);
    let ky = offset(y, py);
    if kx < 8 && ky < 8 {
        let h = if flipx != 0 { 7 - kx } else { kx };
        let v = if flipy != 0 { 7 - ky } else { ky };
        let ch = tile_class(sprite, twobpp, v, h);
        if opaque != 0 || ch != 0 {
            cell(BLENDING[ch as int][color as int], layer)
        } else {
            before
        }
    } else {
        before
    }
}

impl Screen {
    /// The screen as it is made: of the given size, transparent throughout,
    /// with the cursor in its corner and the four default greys.
    pub open spec fn initial(w: u32, h: u32) -> Screen {
        Screen {
            width: w,
            height: h,
            fg: Seq::new((w * h) as nat, |i: int| TRANSPARENT),
            bg: Seq::new((w * h) as nat, |i: int| TRANSPARENT),
            vector: 0,
            addr: 0,
            x: 0,
            y: 0,
            redraw: false,
            color0: Rgb { r: 0, g: 0, b: 0 },
            color1: Rgb { r: 96, g: 96, b: 96 },
            color2: Rgb { r: 220, g: 220, b: 220 },
            color3: Rgb { r: 255, g: 255, b: 255 },
        }
    }

    /// The layers have the size that width and height give, and what the
    /// device registers hold fits in 16 bits.
    pub open spec fn wf(self) -> bool {
        &&& self.width <= 0xffff
        &&& self.height <= 0xffff
        &&& self.fg.len() == self.width * self.height
        &&& self.bg.len() == self.width * self.height
        &&& self.vector <= 0xffff
        &&& self.addr <= 0x10000
    }

    /// The layer that a layer byte selects: the foreground unless it is zero.
    pub open spec fn layer(self, layer: u8) -> Seq<u8> {
        if layer != 0 {
            self.fg
        } else {
            self.bg
        }
    }

    /// The pixel of a layer at column `px` of row `py`.
    pub open spec fn at(self, layer: u8, px: int, py: int) -> u8 {
        self.layer(layer)[py * self.width + px]
    }

    /// The colour of an index, where it is one.
    pub open spec fn color(self, index: u8) -> Option<Rgb> {
        if index == 0 {
            Some(self.color0)
        } else if index == 1 {
            Some(self.color1)
        } else if index == 2 {
            Some(self.color2)
        } else if index == 3 {
            Some(self.color3)
        } else {
            None
        }
    }

    /// Both layers made anew for the present width and height, transparent
    /// throughout.
    pub open spec fn resize(self) -> Screen {
        Screen {
            fg: Seq::new((self.width * self.height) as nat, |i: int| TRANSPARENT),
            bg: Seq::new((self.width * self.height) as nat, |i: int| TRANSPARENT),
            ..self
        }
    }

    /// One pixel written: nothing outside the screen; inside it, the layer's
    /// pixel holds the cell of the colour, and the screen is to be redrawn
    /// if that changed the pixel.
    pub open spec fn write(self, x: int, y: int, color: u8, layer: u8) -> Screen {
        if 0 <= x < self.width && 0 <= y < self.height {
            let i = y * self.width + x;
            let c = cell(color, layer);
            if layer != 0 {
                Screen { fg: self.fg.update(i, c), redraw: self.redraw || self.fg[i] != c, ..self }
            } else {
                Screen { bg: self.bg.update(i, c), redraw: self.redraw || self.bg[i] != c, ..self }
            }
        } else {
            self
        }
    }

    /// One tile drawn: every pixel of the layer is what `blit_pixel` says,
    /// and the screen is to be redrawn if that changed the layer.
    pub open spec fn blit(
        self,
        layer: u8,
        x: u16,
        y: u16,
        sprite: Seq<u8>,
        color: usize,
        flipx: u8,
        flipy: u8,
        twobpp: u8,
        opaque: u8,
    ) -> Screen {
        let w = self.width as int;
        let drawn = Seq::new(
            self.layer(layer).len(),
            |i: int|
                blit_pixel(
                    self.layer(layer)[i],
                    i % w,
                    i / w,
                    layer,
                    x,
                    y,
                    sprite,
                    color,
                    flipx,
                    flipy,
                    twobpp,
                    opaque,
                ),
        );
        self.with_layer(layer, drawn, self.redraw || drawn != self.layer(layer))
    }

    /// The screen with one layer and the redraw flag replaced.
    pub open spec fn with_layer(self, layer: u8, cells: Seq<u8>, redraw: bool) -> Screen {
        if layer != 0 {
            Screen { fg: cells, redraw, ..self }
        } else {
            Screen { bg: cells, redraw, ..self }
        }
    }

    /// The colour shown at a pixel: that of the foreground where it is not
    /// transparent, else that of the background, and colour 0 where both are.
    pub open spec fn shown(self, i: int) -> Rgb {
        match self.color(self.fg[i]) {
            Some(c) => c,
            None => match self.color(self.bg[i]) {
                Some(c) => c,
                None => self.color0,
            },
        }
    }

    /// The frame to present, row after row.
    pub open spec fn frame(self) -> Seq<Rgb> {
        Seq::new(self.fg.len(), |i: int| self.shown(i))
    }
}

/// `blit_pixel` while the tile is being drawn: rows below `v` are done, and
/// of row `v` the columns from `n` on.
pub open spec fn blit_pixel_upto(
    before: u8,
    px: int,
    py: int,
    layer: u8,
    x: u16,
    y: u16,
    sprite: Seq<u8>,
    color: usize,
    flipx: u8,
    flipy: u8,
    twobpp: u8,
    opaque: u8,
    v: int,
    n: int,
) -> u8 {
    let kx = offset(x, px);
    let ky = offset(y, py);
    let h = if flipx != 0 { 7 - kx } else { kx };
    let r = if flipy != 0 { 7 - ky } else { ky };
    if kx < 8 && ky < 8 && (r < v || (r == v && h >= n)) {
        blit_pixel(before, px, py, layer, x, y, sprite, color, flipx, flipy, twobpp, opaque)
    } else {
        before
    }
}

/// Of the pixels that the 16-bit cursor can name, the one at distance `k`
/// from `origin` is the one that adding `k` to `origin` gives.
pub proof fn lemma_offset(origin: u16, k: int, p: int)
    requires
        0 <= k < 8,
        0 <= p < 0x10000,
    ensures
        offset(origin, p) == k <==> p == (origin + k) % 0x10000,
{
}

/// Drawing one more cell of a tile takes `blit_pixel_upto` one column on.
pub proof fn lemma_blit_step(
    before: u8,
    prev: u8,
    cur: u8,
    px: int,
    py: int,
    layer: u8,
    x: u16,
    y: u16,
    sprite: Seq<u8>,
    color: usize,
    flipx: u8,
    flipy: u8,
    twobpp: u8,
    opaque: u8,
    v: int,
    n: int,
    nx: int,
    ny: int,
)
    requires
        0 <= v < 8,
        0 < n <= 8,
        0 <= px < 0x10000,
        0 <= py < 0x10000,
        nx == (x + (if flipx != 0 { 7 - (n - 1) } else { n - 1 })) % 0x10000,
        ny == (y + (if flipy != 0 { 7 - v } else { v })) % 0x10000,
        prev == blit_pixel_upto(
            before,
            px,
            py,
            layer,
            x,
            y,
            sprite,
            color,
            flipx,
            flipy,
            twobpp,
            opaque,
            v,
            n,
        ),
        cur == ({
            let ch = tile_class(sprite, twobpp, v, n - 1);
            if (opaque != 0 || ch != 0) && px == nx && py == ny {
                cell(BLENDING[ch as int][color as int], layer)
            } else {
                prev
            }
        }),
    ensures
        cur == blit_pixel_upto(
            before,
            px,
            py,
            layer,
            x,
            y,
            sprite,
            color,
            flipx,
            flipy,
            twobpp,
            opaque,
            v,
            n - 1,
        ),
{
    let kx = offset(x, px);
    let ky = offset(y, py);
    let fx = if flipx != 0 { 7 - (n - 1) } else { n - 1 };
    let fy = if flipy != 0 { 7 - v } else { v };
    lemma_offset(x, fx, px);
    lemma_offset(y, fy, py);
    let h = if flipx != 0 { 7 - kx } else { kx };
    let r = if flipy != 0 { 7 - ky } else { ky };
    if px == nx && py == ny {
        assert(kx == fx && ky == fy);
        assert(h == n - 1 && r == v);
    } else {
        assert(!(kx == fx && ky == fy));
        assert(!(kx < 8 && ky < 8 && h == n - 1 && r == v));
    }
}

/// The pixel that the cell in row `v`, column `h` of a tile is drawn to.
pub open spec fn target(x: u16, y: u16, flipx: u8, flipy: u8, v: int, h: int) -> (int, int) {
    (
        (x + (if flipx != 0 { 7 - h } else { h })) % 0x10000,
        (y + (if flipy != 0 { 7 - v } else { v })) % 0x10000,
    )
}

/// Drawing the next cell of a tile keeps what holds of a screen while a
/// tile is drawn on it.
pub proof fn lemma_blit_cell(
    before: Screen,
    prev: Screen,
    cur: Screen,
    layer: u8,
    x: u16,
    y: u16,
    sprite: Seq<u8>,
    color: usize,
    flipx: u8,
    flipy: u8,
    twobpp: u8,
    opaque: u8,
    v: int,
    n: int,
)
    requires
        0 <= v < 8,
        0 < n <= 8,
        before.wf(),
        prev.wf(),
        prev == before.with_layer(layer, prev.layer(layer), prev.redraw),
        prev.layer(layer).len() == before.layer(layer).len(),
        prev.redraw == (before.redraw || prev.layer(layer) != before.layer(layer)),
        forall|px: int, py: int|
            0 <= px < before.width && 0 <= py < before.height ==> #[trigger] prev.at(layer, px, py)
                == blit_pixel_upto(
                before.at(layer, px, py),
                px,
                py,
                layer,
                x,
                y,
                sprite,
                color,
                flipx,
                flipy,
                twobpp,
                opaque,
                v,
                n,
            ),
        cur == ({
            let ch = tile_class(sprite, twobpp, v, n - 1);
            let t = target(x, y, flipx, flipy, v, n - 1);
            if opaque != 0 || ch != 0 {
                prev.write(t.0, t.1, BLENDING[ch as int][color as int], layer)
            } else {
                prev
            }
        }),
    ensures
        cur.wf(),
        cur == before.with_layer(layer, cur.layer(layer), cur.redraw),
        cur.layer(layer).len() == before.layer(layer).len(),
        cur.redraw == (before.redraw || cur.layer(layer) != before.layer(layer)),
        forall|px: int, py: int|
            0 <= px < before.width && 0 <= py < before.height ==> #[trigger] cur.at(layer, px, py)
                == blit_pixel_upto(
                before.at(layer, px, py),
                px,
                py,
                layer,
                x,
                y,
                sprite,
                color,
                flipx,
                flipy,
                twobpp,
                opaque,
                v,
                n - 1,
            ),
{
    let ch = tile_class(sprite, twobpp, v, n - 1);
    let t = target(x, y, flipx, flipy, v, n - 1);
    let nx = t.0;
    let ny = t.1;
    let pcolor = BLENDING[ch as int][color as int];
    let drawn = opaque != 0 || ch != 0;
    assert forall|px: int, py: int|
        0 <= px < before.width && 0 <= py < before.height implies #[trigger] cur.at(layer, px, py)
        == blit_pixel_upto(
        before.at(layer, px, py),
        px,
        py,
        layer,
        x,
        y,
        sprite,
        color,
        flipx,
        flipy,
        twobpp,
        opaque,
        v,
        n - 1,
    ) by {
        if drawn {
            lemma_write_at(prev, nx, ny, pcolor, layer, px, py);
        }
        lemma_blit_step(
            before.at(layer, px, py),
            prev.at(layer, px, py),
            cur.at(layer, px, py),
            px,
            py,
            layer,
            x,
            y,
            sprite,
            color,
            flipx,
            flipy,
            twobpp,
            opaque,
            v,
            n,
            nx,
            ny,
        );
    }
    if drawn && 0 <= nx < before.width && 0 <= ny < before.height {
        lemma_index_in_layer(before.width as int, before.height as int, nx, ny);
        let i = ny * before.width + nx;
        let c = cell(pcolor, layer);
        lemma_offset(x, if flipx != 0 { 7 - (n - 1) } else { n - 1 }, nx);
        lemma_offset(y, if flipy != 0 { 7 - v } else { v }, ny);
        assert(prev.at(layer, nx, ny) == before.at(layer, nx, ny));
        assert(cur.layer(layer) == prev.layer(layer).update(i, c));
        if c != prev.layer(layer)[i] {
            assert(cur.layer(layer)[i] != before.layer(layer)[i]);
            assert(cur.redraw);
        } else {
            assert(cur.layer(layer) =~= prev.layer(layer));
            assert(cur.redraw == prev.redraw);
        }
    }
}

/// Two pixels of a layer share a place only if they are the same pixel.
pub proof fn lemma_index_injective(w: int, x: int, y: int, px: int, py: int)
    requires
        0 <= x < w,
        0 <= px < w,
        0 <= y,
        0 <= py,
        y * w + x == py * w + px,
    ensures
        x == px,
        y == py,
{
    if y < py {
        assert((y + 1) * w <= py * w) by (nonlinear_arith)
            requires
                y + 1 <= py,
                0 <= w,
        ;
        assert((y + 1) * w == y * w + w) by (nonlinear_arith);
    } else if py < y {
        assert((py + 1) * w <= y * w) by (nonlinear_arith)
            requires
                py + 1 <= y,
                0 <= w,
        ;
        assert((py + 1) * w == py * w + w) by (nonlinear_arith);
    }
}

/// A write changes the pixel it names, and no other pixel of its layer.
pub proof fn lemma_write_at(s: Screen, x: int, y: int, color: u8, layer: u8, px: int, py: int)
    requires
        s.wf(),
        0 <= px < s.width,
        0 <= py < s.height,
    ensures
        s.write(x, y, color, layer).at(layer, px, py) == (if px == x && py == y {
            cell(color, layer)
        } else {
            s.at(layer, px, py)
        }),
{
    let w = s.width as int;
    lemma_index_in_layer(w, s.height as int, px, py);
    if 0 <= x < s.width && 0 <= y < s.height {
        lemma_index_in_layer(w, s.height as int, x, y);
        if y * w + x == py * w + px {
            lemma_index_injective(w, x, y, px, py);
        }
    }
}

/// The frame is made of the two layers and the palette, and of nothing
/// else: screens that agree in these show the same frame, whatever their
/// cursors and whether they are to be redrawn or not.
pub proof fn lemma_frame(a: Screen, b: Screen)
    requires
        a.fg == b.fg,
        a.bg == b.bg,
        a.color0 == b.color0,
        a.color1 == b.color1,
        a.color2 == b.color2,
        a.color3 == b.color3,
    ensures
        a.frame() == b.frame(),
{
    assert(a.frame() =~= b.frame());
}

/// A pixel's place in its layer lies inside the layer.
pub proof fn lemma_index_in_layer(w: int, h: int, x: int, y: int)
    requires
        0 <= x < w,
        0 <= y < h,
    ensures
        0 <= y * w + x < w * h,
{
    assert(y * w + x < w * h) by (nonlinear_arith)
        requires
            0 <= x < w,
            0 <= y < h,
    ;
    assert(0 <= y * w) by (nonlinear_arith)
        requires
            0 <= y,
            0 <= w,
    ;
}

impl ScreenDevice {
    /// A screen of the given size with transparent layers and the four
    /// default greys. Width and height are device registers of 16 bits.
    pub fn new(w: u32, h: u32) -> (s: Self)
        requires
            w <= 0xffff,
            h <= 0xffff,
        ensures
            s@.wf(),
            s@ == Screen::initial(w, h),
    {
        let n = area(w, h);
        let fg = vec![TRANSPARENT; n];
        let bg = vec![TRANSPARENT; n];
        assert(fg@ =~= Seq::new((w * h) as nat, |i: int| TRANSPARENT));
        assert(bg@ =~= Seq::new((w * h) as nat, |i: int| TRANSPARENT));
        ScreenDevice {
            width: w,
            height: h,
            x: 0,
            y: 0,
            fg,
            bg,
            vector: 0,
            addr: 0,
            redraw: false,
            color0: Rgb { r: 0, g: 0, b: 0 },
            color1: Rgb { r: 96, g: 96, b: 96 },
            color2: Rgb { r: 220, g: 220, b: 220 },
            color3: Rgb { r: 255, g: 255, b: 255 },
        }
    }

    /// The colour of an index of the palette; `None` for what is no index.
    pub fn get_color(&self, index: u8) -> (c: Option<Rgb>)
        ensures
            c == self@.color(index),
    {
        match index {
            0 => Some(self.color0),
            1 => Some(self.color1),
            2 => Some(self.color2),
            3 => Some(self.color3),
            _ => None,
        }
    }

    /// The frame to present: the background with every foreground pixel
    /// that is not transparent laid over it.
    pub fn generate(&self) -> (buffer: Vec<Rgb>)
        requires
            self@.wf(),
        ensures
            buffer@ == self@.frame(),
    {
        let n = self.fg.len();
        let mut buffer: Vec<Rgb> = Vec::new();
        let mut i: usize = 0;
        while i < n
            invariant
                self@.wf(),
                n == self.fg@.len(),
                i <= n,
                buffer@.len() == i,
                forall|k: int| 0 <= k < i ==> buffer@[k] == self@.shown(k),
            decreases n - i,
        {
            let p = match self.get_color(self.fg[i]) {
                Some(c) => c,
                None => match self.get_color(self.bg[i]) {
                    Some(c) => c,
                    None => self.color0,
                },
            };
            buffer.push(p);
            i += 1;
        }
        assert(buffer@ =~= self@.frame());
        buffer
    }

    /// Writes one pixel; outside the screen, nothing.
    pub fn screen_write(&mut self, x: usize, y: usize, color: u8, layer: u8)
        requires
            old(self)@.wf(),
        ensures
            final(self)@.wf(),
            final(self)@ == old(self)@.write(x as int, y as int, color, layer),
    {
        // check that the coordinates are actually applicable to our screen
        // if not, we simply ignore them, this is a default behaviour
        if x < (self.width as usize) {
            if y < (self.height as usize) {
                proof {
                    lemma_index_in_layer(self.width as int, self.height as int, x as int, y as int);
                    assert(self.width * self.height <= 0xffff * 0xffff) by (nonlinear_arith)
                        requires
                            self.width <= 0xffff,
                            self.height <= 0xffff,
                    ;
                }
                let i = y * (self.width as usize) + x;
                let c = if color > 3 || (layer != 0x00 && color == 0) {
                    TRANSPARENT
                } else {
                    color
                };
                // write to the foreground buffer
                if layer != 0x00 {
                    if c != self.fg[i] {
                        self.fg[i] = c;
                        self.redraw = true;
                    }
                    // write to the background buffer
                } else {
                    if c != self.bg[i] {
                        self.bg[i] = c;
                        self.redraw = true;
                    }
                }
                assert(self.fg@ =~= old(self)@.write(x as int, y as int, color, layer).fg);
                assert(self.bg@ =~= old(self)@.write(x as int, y as int, color, layer).bg);
            }
        }
    }

    /// Draws one 8x8 tile with its corner at (`x`, `y`).
    pub fn screen_blit(
        &mut self,
        layer: u8,
        x: u16,
        y: u16,
        sprite: &[u8],
        color: usize,
        flipx: u8,
        flipy: u8,
        twobpp: u8,
        opaque: u8,
    )
        requires
            old(self)@.wf(),
            color < 16,
            sprite@.len() >= (if twobpp == 1 { 16int } else { 8int }),
        ensures
            final(self)@.wf(),
            final(self)@ == old(self)@.blit(
                layer,
                x,
                y,
                sprite@,
                color,
                flipx,
                flipy,
                twobpp,
                opaque,
            ),
    {
        let ghost before = self@;
        let mut v: usize = 0;
        while v < 8
            invariant
                v <= 8,
                color < 16,
                sprite@.len() >= (if twobpp == 1 { 16int } else { 8int }),
                before.wf(),
                self@.wf(),
                self@ == before.with_layer(layer, self@.layer(layer), self.redraw),
                self@.layer(layer).len() == before.layer(layer).len(),
                self.redraw == (before.redraw || self@.layer(layer) != before.layer(layer)),
                forall|px: int, py: int|
                    0 <= px < before.width && 0 <= py < before.height ==> #[trigger] self@.at(
                        layer,
                        px,
                        py,
                    ) == blit_pixel_upto(
                        before.at(layer, px, py),
                        px,
                        py,
                        layer,
                        x,
                        y,
                        sprite@,
                        color,
                        flipx,
                        flipy,
                        twobpp,
                        opaque,
                        v as int,
                        8,
                    ),
            decreases 8 - v,
        {
            let mut n: usize = 8;
            while n > 0
                invariant
                    v < 8,
                    n <= 8,
                    color < 16,
                    sprite@.len() >= (if twobpp == 1 { 16int } else { 8int }),
                    before.wf(),
                    self@.wf(),
                    self@ == before.with_layer(layer, self@.layer(layer), self.redraw),
                    self@.layer(layer).len() == before.layer(layer).len(),
                    self.redraw == (before.redraw || self@.layer(layer) != before.layer(layer)),
                    forall|px: int, py: int|
                        0 <= px < before.width && 0 <= py < before.height ==> #[trigger] self@.at(
                            layer,
                            px,
                            py,
                        ) == blit_pixel_upto(
                            before.at(layer, px, py),
                            px,
                            py,
                            layer,
                            x,
                            y,
                            sprite@,
                            color,
                            flipx,
                            flipy,
                            twobpp,
                            opaque,
                            v as int,
                            n as int,
                        ),
                decreases n,
            {
                let h: usize = n - 1;
                let bit: u8 = (7 - h) as u8;
                let lo: u8 = low_bit(sprite[v], bit);
                let hi: u8 = if twobpp == 1 {
                    low_bit(sprite[v + 8], bit)
                } else {
                    0
                };
                let ch: u8 = lo | (hi << 1);
                assert(ch < 4) by (bit_vector)
                    requires
                        ch == lo | (hi << 1),
                        lo <= 1,
                        hi <= 1,
                ;
                assert(ch == tile_class(sprite@, twobpp, v as int, h as int));
                let nx: usize = if flipx != 0 {
                    (x as usize + (7 - h)) % 0x10000
                } else {
                    (x as usize + h) % 0x10000
                };
                let ny: usize = if flipy != 0 {
                    (y as usize + (7 - v)) % 0x10000
                } else {
                    (y as usize + v) % 0x10000
                };
                let ghost prev = self@;
                if opaque != 0 || ch != 0 {
                    let pcolor: u8 = BLENDING[ch as usize][color];
                    self.screen_write(nx, ny, pcolor, layer);
                }
                proof {
                    lemma_blit_cell(
                        before,
                        prev,
                        self@,
                        layer,
                        x,
                        y,
                        sprite@,
                        color,
                        flipx,
                        flipy,
                        twobpp,
                        opaque,
                        v as int,
                        n as int,
                    );
                }
                n -= 1;
            }
            v += 1;
        }
        proof {
            let w = before.width as int;
            let after = before.blit(layer, x, y, sprite@, color, flipx, flipy, twobpp, opaque);
            assert forall|i: int| 0 <= i < before.layer(layer).len() implies self@.layer(layer)[i]
                == after.layer(layer)[i] by {
                lemma_place(w, before.height as int, i);
                assert(self@.at(layer, i % w, i / w) == self@.layer(layer)[i]);
                assert(before.at(layer, i % w, i / w) == before.layer(layer)[i]);
            }
            assert(self@.layer(layer) =~= after.layer(layer));
        }
    }

    /// Makes both layers anew for the present width and height, transparent
    /// throughout.
    pub fn resize(&mut self)
        requires
            old(self).width <= 0xffff,
            old(self).height <= 0xffff,
        ensures
            final(self)@ == old(self)@.resize(),
    {
        let n = area(self.width, self.height);
        self.fg = vec![TRANSPARENT; n];
        self.bg = vec![TRANSPARENT; n];
        assert(self.fg@ =~= old(self)@.resize().fg);
        assert(self.bg@ =~= old(self)@.resize().bg);
    }

    // return the screen vector
    pub fn vector(&self) -> (v: usize)
        ensures
            v == self.vector,
    {
        self.vector
    }
}

/// Every place of a layer is that of one pixel: column `i % w` of row `i / w`.
pub proof fn lemma_place(w: int, h: int, i: int)
    requires
        0 <= w,
        0 <= h,
        0 <= i < w * h,
    ensures
        0 <= i % w < w,
        0 <= i / w < h,
        (i / w) * w + i % w == i,
{
    assert(w > 0) by (nonlinear_arith)
        requires
            0 <= w,
            0 <= i < w * h,
    ;
    vstd::arithmetic::div_mod::lemma_fundamental_div_mod(i, w);
    vstd::arithmetic::div_mod::lemma_mod_bound(i, w);
    let q = i / w;
    let r = i % w;
    assert(w * q == q * w) by (nonlinear_arith);
    assert(0 <= q < h) by (nonlinear_arith)
        requires
            i == w * q + r,
            0 <= r < w,
            0 <= i < w * h,
            w > 0,
    ;
}

/// Bit `bit` of a byte.
fn low_bit(byte: u8, bit: u8) -> (b: u8)
    requires
        bit < 8,
    ensures
        b == (byte >> bit) & 1,
        b <= 1,
{
    let b = (byte >> bit) & 1;
    assert(b <= 1) by (bit_vector)
        requires
            b == (byte >> bit) & 1,
    ;
    b
}

/// Number of pixels of a layer.
fn area(w: u32, h: u32) -> (n: usize)
    requires
        w <= 0xffff,
        h <= 0xffff,
    ensures
        n == w * h,
{
    assert(w * h <= 0xffff * 0xffff) by (nonlinear_arith)
        requires
            w <= 0xffff,
            h <= 0xffff,
    ;
    (w as usize) * (h as usize)
}

/// Number of tiles of a sprite run, less one: the high nibble of the
/// auto-advance byte.
pub open spec fn run_count(ctrl: u8) -> u8 {
    ctrl >> 4
}

/// How far the cursor's x moves after a draw, and each tile of a run down
/// from the one before: 8 where bit 0 of the auto-advance byte is set.
pub open spec fn run_dx(ctrl: u8) -> u8 {
    (ctrl & 0x01) << 3
}

/// How far the cursor's y moves after a draw, and each tile of a run right
/// from the one before: 8 where bit 1 of the auto-advance byte is set.
pub open spec fn run_dy(ctrl: u8) -> u8 {
    (ctrl & 0x02) << 2
}

/// 1 where a draw's flags ask for tiles of two planes, else 0.
pub open spec fn run_planes(flags: u8) -> u8 {
    if flags & 0x80 != 0 {
        1
    } else {
        0
    }
}

/// Bytes of one tile: 8 for each plane.
pub open spec fn tile_bytes(flags: u8) -> int {
    if flags & 0x80 != 0 {
        16
    } else {
        8
    }
}

/// A cursor coordinate moved on by `by`, in 16 bits.
pub open spec fn advance(at: u16, by: int) -> u16 {
    ((at + by) % 0x10000) as u16
}

/// The screen after the first `tiles` tiles of a sprite run were drawn. Tile
/// `i` lies `i` steps from the cursor, is read `i` tiles on from the sprite
/// address, and is drawn as the flags say.
pub open spec fn sprite_run(screen: Screen, ram: Seq<u8>, flags: u8, ctrl: u8, tiles: nat) -> Screen
    decreases tiles,
{
    if tiles == 0 {
        screen
    } else {
        let i = tiles - 1;
        sprite_run(screen, ram, flags, ctrl, i as nat).blit(
            flags & 0x40,
            advance(screen.x, run_dy(ctrl) * i),
            advance(screen.y, run_dx(ctrl) * i),
            ram.subrange(screen.addr + i * tile_bytes(flags), 0x10000),
            (flags & 0x0f) as usize,
            flags & 0x10,
            flags & 0x20,
            run_planes(flags),
            BLENDING[4][(flags & 0x0f) as int],
        )
    }
}

impl Machine {
    /// One pixel drawn at the cursor, as the byte at port 0x2e says: its two
    /// low bits are the colour, bit 6 selects the foreground. Then the
    /// cursor moves on by one in x where bit 0 of the auto-advance byte is
    /// set, and in y where bit 1 is, in the device and in its ports.
    #[verifier::opaque]
    pub open spec fn draw_pixel(self) -> Machine {
        let flags = self.dev[0x2e];
        let ctrl = self.dev[0x26];
        let x = self.screen.x;
        let y = self.screen.y;
        let m0 = Machine {
            screen: self.screen.write(x as int, y as int, flags & 0x3, flags & 0x40),
            ..self
        };
        let m1 = if ctrl & 0x01 != 0 {
            (Machine { screen: Screen { x: advance(x, 1), ..m0.screen }, ..m0 }).dev_poke(
                0x28,
                advance(x, 1),
            )
        } else {
            m0
        };
        if ctrl & 0x02 != 0 {
            (Machine { screen: Screen { y: advance(y, 1), ..m1.screen }, ..m1 }).dev_poke(
                0x2a,
                advance(y, 1),
            )
        } else {
            m1
        }
    }

    /// A run of sprites drawn from the cursor on, as the byte at port 0x2f
    /// and the auto-advance byte say. A run that would read past the end of
    /// memory is dropped whole, and noted. After a run the sprite address
    /// stands behind the tiles read and the cursor has moved one step, in
    /// the device and in its ports.
    #[verifier::opaque]
    pub open spec fn draw_sprites(self) -> Machine {
        let flags = self.dev[0x2f];
        let ctrl = self.dev[0x26];
        let tiles = run_count(ctrl) + 1;
        let end = self.screen.addr + tiles * tile_bytes(flags);
        if end > 0x10000 {
            self.note(Diagnostic::SpriteReadOutOfBounds(self.screen.addr))
        } else {
            let x = advance(self.screen.x, run_dx(ctrl) as int);
            let y = advance(self.screen.y, run_dy(ctrl) as int);
            (Machine {
                screen: Screen {
                    addr: end as usize,
                    x,
                    y,
                    ..sprite_run(self.screen, self.ram, flags, ctrl, tiles as nat)
                },
                ..self
            }).dev_poke(0x2c, (end % 0x10000) as u16).dev_poke(0x28, x).dev_poke(0x2a, y)
        }
    }

    /// What a write to a port of the screen does, once the byte is in the
    /// device page. The second byte of a register completes it: the device
    /// takes the register from the page, and a new width or height makes
    /// both layers anew. Ports 0xe and 0xf draw. A write to port 7 is noted;
    /// the other ports only hold their byte.
    #[verifier::opaque]
    pub open spec fn deo_screen(self, port: int) -> Machine {
        let rel = port % 16;
        let s = self.screen;
        if rel == 0x1 {
            Machine { screen: Screen { vector: self.dev_word(0x20) as usize, ..s }, ..self }
        } else if rel == 0x3 {
            Machine {
                screen: (Screen { width: self.dev_word(0x22) as u32, ..s }).resize(),
                ..self
            }
        } else if rel == 0x5 {
            Machine {
                screen: (Screen { height: self.dev_word(0x24) as u32, ..s }).resize(),
                ..self
            }
        } else if rel == 0x9 {
            Machine { screen: Screen { x: self.dev_word(0x28), ..s }, ..self }
        } else if rel == 0xb {
            Machine { screen: Screen { y: self.dev_word(0x2a), ..s }, ..self }
        } else if rel == 0xd {
            Machine { screen: Screen { addr: self.dev_word(0x2c) as usize, ..s }, ..self }
        } else if rel == 0xe {
            self.draw_pixel()
        } else if rel == 0xf {
            self.draw_sprites()
        } else if rel == 0x7 {
            self.note(Diagnostic::UnmappedDevicePort(port as usize))
        } else {
            self
        }
    }
}

/// The parts of the auto-advance byte and of a draw's flags, with their
/// ranges.
fn run_fields(ctrl: u8, flags: u8) -> (f: (u8, u8, u8, u8, usize))
    ensures
        f.0 == run_count(ctrl),
        f.0 <= 15,
        f.1 == run_dx(ctrl),
        f.1 == 0 || f.1 == 8,
        f.2 == run_dy(ctrl),
        f.2 == 0 || f.2 == 8,
        f.3 == run_planes(flags),
        f.4 == tile_bytes(flags),
{
    let n: u8 = ctrl >> 4;
    let dx: u8 = (ctrl & 0x01) << 3;
    let dy: u8 = (ctrl & 0x02) << 2;
    assert(n <= 15) by (bit_vector)
        requires
            n == ctrl >> 4,
    ;
    assert(dx == 0 || dx == 8) by (bit_vector)
        requires
            dx == (ctrl & 0x01) << 3,
    ;
    assert(dy == 0 || dy == 8) by (bit_vector)
        requires
            dy == (ctrl & 0x02) << 2,
    ;
    if (flags & 0x80) != 0 {
        (n, dx, dy, 1, 16)
    } else {
        (n, dx, dy, 0, 8)
    }
}

/// The short that two ports of the device page hold, high byte first.
fn dev_word(uxn: &UXN, port: usize) -> (w: u16)
    requires
        uxn.wf(),
        port < 0xff,
    ensures
        w == uxn@.dev_word(port as int),
{
    (uxn.dev_get(port) as u16) * 256 + (uxn.dev_get(port + 1) as u16)
}

/// Draws one pixel at the cursor and moves the cursor on.
fn draw_pixel(uxn: &mut UXN)
    requires
        old(uxn).wf(),
    ensures
        final(uxn).wf(),
        final(uxn)@ == old(uxn)@.draw_pixel(),
{
    reveal(Machine::draw_pixel);
    let x = uxn.screen.x;
    let y = uxn.screen.y;
    let flags = uxn.dev_get(0x2e);
    let ctrl = uxn.dev_get(0x26);

    uxn.screen.screen_write(x as usize, y as usize, flags & 0x3, flags & 0x40);

    if (ctrl & 0x01) != 0 {
        let nx: u16 = ((x as u32 + 1) % 0x10000) as u16;
        uxn.screen.x = nx;
        uxn.dev_poke(0x28, nx);
    }
    if (ctrl & 0x02) != 0 {
        let ny: u16 = ((y as u32 + 1) % 0x10000) as u16;
        uxn.screen.y = ny;
        uxn.dev_poke(0x2a, ny);
    }
}

/// Draws a run of sprites from the cursor on and moves the cursor and the
/// sprite address on.
fn draw_sprites(uxn: &mut UXN)
    requires
        old(uxn).wf(),
    ensures
        final(uxn).wf(),
        final(uxn)@ == old(uxn)@.draw_sprites(),
{
    reveal(Machine::draw_sprites);
    let x = uxn.screen.x;
    let y = uxn.screen.y;
    let flags = uxn.dev_get(0x2f);
    let ctrl = uxn.dev_get(0x26);
    let color = (flags & 0xf) as usize;
    let layer = flags & 0x40;
    let flipx = flags & 0x10;
    let flipy = flags & 0x20;
    let (n, dx, dy, twobpp, size) = run_fields(ctrl, flags);
    let mut sprite_addr = uxn.screen.addr;

    if sprite_addr + (n as usize + 1) * size > 0x10000 {
        uxn.note(Diagnostic::SpriteReadOutOfBounds(sprite_addr));
        return ;
    }
    assert(color < 16) by (bit_vector)
        requires
            color == (flags & 0xf) as usize,
    ;
    let opaque: u8 = BLENDING[4][color];
    let ghost start = uxn@;
    let mut i: u8 = 0;
    while i <= n
        invariant
            n <= 15,
            i <= n + 1,
            dx == run_dx(ctrl),
            dy == run_dy(ctrl),
            dx == 0 || dx == 8,
            dy == 0 || dy == 8,
            twobpp == run_planes(flags),
            size == tile_bytes(flags),
            color == (flags & 0x0f) as usize,
            color < 16,
            layer == flags & 0x40,
            flipx == flags & 0x10,
            flipy == flags & 0x20,
            opaque == BLENDING[4][color as int],
            x == start.screen.x,
            y == start.screen.y,
            start.wf(),
            start.screen.addr + (n + 1) * size <= 0x10000,
            sprite_addr == start.screen.addr + i * size,
            uxn.wf(),
            uxn@ == (Machine { screen: uxn.screen@, ..start }),
            uxn.screen@ == sprite_run(start.screen, start.ram, flags, ctrl, i as nat),
        decreases n + 1 - i,
    {
        let sprite_x: u16 = ((x as u32 + (dy * i) as u32) % 0x10000) as u16;
        let sprite_y: u16 = ((y as u32 + (dx * i) as u32) % 0x10000) as u16;
        assert(sprite_addr + size <= 0x10000) by (nonlinear_arith)
            requires
                sprite_addr == start.screen.addr + i * size,
                start.screen.addr + (n + 1) * size <= 0x10000,
                i <= n,
                size > 0,
        ;
        let sprite: &[u8] = slice_subrange(uxn.ram.as_slice(), sprite_addr, 0x10000);

        uxn.screen.screen_blit(
            layer,
            sprite_x,
            sprite_y,
            sprite,
            color,
            flipx,
            flipy,
            twobpp,
            opaque,
        );
        assert((i + 1) * size == i * size + size) by (nonlinear_arith);
        sprite_addr += size;
        i += 1;
    }
    let nx: u16 = ((x as u32 + dx as u32) % 0x10000) as u16;
    let ny: u16 = ((y as u32 + dy as u32) % 0x10000) as u16;

    uxn.dev_poke(0x2c, (sprite_addr % 0x10000) as u16);
    uxn.screen.addr = sprite_addr;

    uxn.dev_poke(0x28, nx);
    uxn.screen.x = nx;

    uxn.dev_poke(0x2a, ny);
    uxn.screen.y = ny;
}

/// The screen's write handler; `val` is the byte that was written.
pub fn screen(uxn: &mut UXN, port: usize, val: u8)
    requires
        old(uxn).wf(),
        0x20 <= port < 0x30,
    ensures
        final(uxn).wf(),
        final(uxn)@ == old(uxn)@.deo_screen(port as int),
{
    reveal(Machine::deo_screen);
    let rel = port % 16;

    match rel {
        // set the vector address
        0x1 => {
            uxn.screen.vector = dev_word(uxn, 0x20) as usize;
        },
        // register - set screen width
        0x3 => {
            uxn.screen.width = dev_word(uxn, 0x22) as u32;
            uxn.screen.resize();
        },
        // register - set screen height
        0x5 => {
            uxn.screen.height = dev_word(uxn, 0x24) as u32;
            uxn.screen.resize();
        },
        // set x coordinate
        0x9 => {
            uxn.screen.x = dev_word(uxn, 0x28);
        },
        // set y coordinate
        0xb => {
            uxn.screen.y = dev_word(uxn, 0x2a);
        },
        // register sprite addr
        0xd => {
            uxn.screen.addr = dev_word(uxn, 0x2c) as usize;
        },
        // write a pixel to the screen
        0xe => {
            draw_pixel(uxn);
        },
        // draw a run of sprites
        0xf => {
            draw_sprites(uxn);
        },
        0x7 => {
            uxn.note(Diagnostic::UnmappedDevicePort(port));
        },
        // first bytes of registers, and the auto-advance byte, which the
        // drawing ports read from the device page
        _ => {},
    }
}

} // verus!
