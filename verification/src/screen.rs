//! Framebuffer drawing: an RGB framebuffer model, rectangle fills, the
//! desktop background, and the mouse cursor.
//!
//! On hardware the framebuffer is a memory-mapped region written with
//! volatile stores; the model holds the same bytes in an owned buffer with
//! the same layout (blue, green, red per pixel, pixels advancing row by
//! row), and the contracts state every byte the drawing routines touch.

use vstd::prelude::*;

verus! {

/// One color, eight bits per channel.
#[derive(Clone, Copy, PartialEq, Eq, Structural, Debug)]
pub struct Rgb {
    pub r: u8,
    pub g: u8,
    pub b: u8,
}

impl Rgb {
    /// The channels of a 0x00RRGGBB word.
    pub open spec fn spec_new(hex: u32) -> Rgb {
        Rgb { r: ((hex >> 16) & 0xFF) as u8, g: ((hex >> 8) & 0xFF) as u8, b: (hex & 0xFF) as u8 }
    }

    pub fn new(hex: u32) -> (c: Rgb)
        ensures
            c == Rgb::spec_new(hex),
    {
        Rgb { r: ((hex >> 16) & 0xFF) as u8, g: ((hex >> 8) & 0xFF) as u8, b: (hex & 0xFF) as u8 }
    }
}

/// A point or offset on the screen.
#[derive(Clone, Copy, PartialEq, Eq, Structural, Debug)]
pub struct Coord {
    pub x: isize,
    pub y: isize,
}

/// `c` moved into the box spanned by `low` and `high`: each axis is first
/// raised to the low bound, then lowered to the high bound, so when the
/// bounds cross, the high bound wins.
pub open spec fn spec_put_in(c: Coord, low: Coord, high: Coord) -> Coord {
    Coord {
        x: if c.x < low.x {
            if low.x > high.x {
                high.x
            } else {
                low.x
            }
        } else if c.x > high.x {
            high.x
        } else {
            c.x
        },
        y: if c.y < low.y {
            if low.y > high.y {
                high.y
            } else {
                low.y
            }
        } else if c.y > high.y {
            high.y
        } else {
            c.y
        },
    }
}

impl Coord {
    pub fn new(x: isize, y: isize) -> (c: Self)
        ensures
            c == (Coord { x, y }),
    {
        Coord { x, y }
    }

    /// Clamps the point into the box spanned by `coord_1` and `coord_2`.
    pub fn put_in(self, coord_1: Self, coord_2: Self) -> (c: Self)
        ensures
            c == spec_put_in(self, coord_1, coord_2),
    {
        let mut new_coord = self;
        if new_coord.x < coord_1.x {
            new_coord.x = coord_1.x;
        }
        if new_coord.x > coord_2.x {
            new_coord.x = coord_2.x;
        }
        if new_coord.y < coord_1.y {
            new_coord.y = coord_1.y;
        }
        if new_coord.y > coord_2.y {
            new_coord.y = coord_2.y;
        }
        new_coord
    }
}

/// The mapped framebuffer: `x_len` by `y_len` pixels, 24 or 32 bits each,
/// stored as blue, green, red (and one padding byte at 32 bits per pixel).
pub struct Vram {
    pub bits_per_pixel: u32,
    pub x_len: usize,
    pub y_len: usize,
    pub buf: Vec<u8>,
}

impl Vram {
    pub open spec fn spec_bytes_per_pixel(self) -> int {
        self.bits_per_pixel as int / 8
    }

    pub open spec fn wf(self) -> bool {
        &&& (self.bits_per_pixel == 24 || self.bits_per_pixel == 32)
        &&& self.buf.len() == self.x_len * self.y_len * self.spec_bytes_per_pixel()
        &&& self.x_len <= isize::MAX
        &&& self.y_len <= isize::MAX
    }

    pub open spec fn spec_valid_coord(self, x: int, y: int) -> bool {
        0 <= x < self.x_len && 0 <= y < self.y_len
    }

    /// Byte offset of a pixel's first (blue) byte.
    pub open spec fn spec_byte_offset(self, x: int, y: int) -> int {
        (y * self.x_len + x) * self.spec_bytes_per_pixel()
    }

    /// The color stored for one pixel.
    pub open spec fn spec_pixel(self, x: int, y: int) -> Rgb {
        Rgb {
            r: self.buf[self.spec_byte_offset(x, y) + 2],
            g: self.buf[self.spec_byte_offset(x, y) + 1],
            b: self.buf[self.spec_byte_offset(x, y)],
        }
    }

    /// A framebuffer of the given geometry with every byte zeroed.
    pub fn new(x_len: usize, y_len: usize, bits_per_pixel: u32) -> (v: Vram)
        requires
            bits_per_pixel == 24 || bits_per_pixel == 32,
            x_len <= isize::MAX,
            y_len <= isize::MAX,
            x_len * y_len * (bits_per_pixel as int / 8) <= usize::MAX,
        ensures
            v.wf(),
            v.x_len == x_len,
            v.y_len == y_len,
            v.bits_per_pixel == bits_per_pixel,
            forall|k: int| 0 <= k < v.buf.len() ==> v.buf[k] == 0,
    {
        let bytes_per_pixel = (bits_per_pixel / 8) as usize;
        proof {
            assert(x_len * y_len <= x_len * y_len * 3 && x_len * y_len * 3 <= x_len * y_len * (
            bits_per_pixel as int / 8)) by (nonlinear_arith)
                requires
                    x_len >= 0,
                    y_len >= 0,
                    bits_per_pixel == 24 || bits_per_pixel == 32,
            ;
        }
        let pixels = x_len * y_len;
        let total = pixels * bytes_per_pixel;
        let mut buf: Vec<u8> = Vec::new();
        while buf.len() < total
            invariant
                buf.len() <= total,
                forall|k: int| 0 <= k < buf.len() ==> buf[k] == 0,
            decreases total - buf.len(),
        {
            buf.push(0);
        }
        Vram { bits_per_pixel, x_len, y_len, buf }
    }

    /// Writes one pixel: its blue, green and red bytes take the new color
    /// and every other byte of the buffer keeps its value.
    pub fn set_color(&mut self, coord: Coord, rgb: Rgb)
        requires
            old(self).wf(),
            old(self).spec_valid_coord(coord.x as int, coord.y as int),
        ensures
            final(self).wf(),
            final(self).x_len == old(self).x_len,
            final(self).y_len == old(self).y_len,
            final(self).bits_per_pixel == old(self).bits_per_pixel,
            final(self).buf.len() == old(self).buf.len(),
            final(self).spec_pixel(coord.x as int, coord.y as int) == rgb,
            forall|px: int, py: int|
                old(self).spec_valid_coord(px, py) && !(px == coord.x && py == coord.y)
                    ==> final(self).spec_pixel(px, py) == old(self).spec_pixel(px, py),
    {
        let bytes_per_pixel = (self.bits_per_pixel / 8) as usize;
        let x = coord.x as usize;
        let y = coord.y as usize;
        proof {
            lemma_offset_in_buffer(self.x_len as int, self.y_len as int,
                self.spec_bytes_per_pixel(), x as int, y as int);
        }
        let offset = (y * self.x_len + x) * bytes_per_pixel;
        self.buf.set(offset, rgb.b);
        self.buf.set(offset + 1, rgb.g);
        self.buf.set(offset + 2, rgb.r);
        proof {
            let w = old(self).x_len as int;
            let b = old(self).spec_bytes_per_pixel();
            assert forall|px: int, py: int|
                old(self).spec_valid_coord(px, py) && !(px == coord.x && py == coord.y) implies
                self.spec_pixel(px, py) == old(self).spec_pixel(px, py) by {
                lemma_pixel_offsets_disjoint(w, b, px, py, coord.x as int, coord.y as int);
                lemma_offset_in_buffer(w, old(self).y_len as int, b, px, py);
                let offp = old(self).spec_byte_offset(px, py);
                let offc = old(self).spec_byte_offset(coord.x as int, coord.y as int);
                assert(offp + 3 <= offc || offc + 3 <= offp);
                assert(offset as int == offc);
                assert(self.buf[offp] == old(self).buf[offp]);
                assert(self.buf[offp + 1] == old(self).buf[offp + 1]);
                assert(self.buf[offp + 2] == old(self).buf[offp + 2]);
            }
        }
    }
}

/// A pixel's three color bytes lie inside a well-formed buffer.
proof fn lemma_offset_in_buffer(x_len: int, y_len: int, bytes_per_pixel: int, x: int, y: int)
    by (nonlinear_arith)
    requires
        0 <= x < x_len,
        0 <= y < y_len,
        bytes_per_pixel >= 3,
    ensures
        0 <= (y * x_len + x) * bytes_per_pixel,
        (y * x_len + x) * bytes_per_pixel + 3 <= x_len * y_len * bytes_per_pixel,
        y * x_len + x < x_len * y_len,
        x_len * y_len <= x_len * y_len * bytes_per_pixel,
{
}

/// Distinct pixels of one row-major buffer own disjoint byte triples.
proof fn lemma_pixel_offsets_disjoint(
    x_len: int,
    bytes_per_pixel: int,
    x1: int,
    y1: int,
    x2: int,
    y2: int,
)
    by (nonlinear_arith)
    requires
        0 <= x1 < x_len,
        0 <= x2 < x_len,
        0 <= y1,
        0 <= y2,
        bytes_per_pixel >= 3,
        !(x1 == x2 && y1 == y2),
    ensures
        (y1 * x_len + x1) * bytes_per_pixel + 3 <= (y2 * x_len + x2) * bytes_per_pixel || (y2
            * x_len + x2) * bytes_per_pixel + 3 <= (y1 * x_len + x1) * bytes_per_pixel,
{
}

/// The drawing surface; operations take the framebuffer they draw on.
pub struct Screen;

/// Whether a point lies in the inclusive rectangle between two corners.
pub open spec fn spec_in_rect(x0: int, y0: int, x1: int, y1: int, px: int, py: int) -> bool {
    x0 <= px <= x1 && y0 <= py <= y1
}

impl Screen {
    /// Fills the inclusive rectangle with one color; every pixel outside it
    /// keeps its color.
    pub fn draw_rectangle(
        &mut self,
        vram: &mut Vram,
        color: Rgb,
        top_left: Coord,
        bottom_right: Coord,
    )
        requires
            old(vram).wf(),
            0 <= top_left.x <= bottom_right.x < old(vram).x_len,
            0 <= top_left.y <= bottom_right.y < old(vram).y_len,
        ensures
            final(vram).wf(),
            final(vram).x_len == old(vram).x_len,
            final(vram).y_len == old(vram).y_len,
            final(vram).bits_per_pixel == old(vram).bits_per_pixel,
            forall|px: int, py: int|
                old(vram).spec_valid_coord(px, py) ==> final(vram).spec_pixel(px, py) == if
                    spec_in_rect(
                    top_left.x as int,
                    top_left.y as int,
                    bottom_right.x as int,
                    bottom_right.y as int,
                    px,
                    py,
                ) {
                    color
                } else {
                    old(vram).spec_pixel(px, py)
                },
    {
        let mut y = top_left.y;
        while y <= bottom_right.y
            invariant
                old(vram).wf(),
                vram.wf(),
                vram.x_len == old(vram).x_len,
                vram.y_len == old(vram).y_len,
                vram.bits_per_pixel == old(vram).bits_per_pixel,
                0 <= top_left.x <= bottom_right.x < old(vram).x_len,
                0 <= top_left.y <= y,
                y <= bottom_right.y + 1,
                bottom_right.y < old(vram).y_len,
                forall|px: int, py: int|
                    old(vram).spec_valid_coord(px, py) ==> vram.spec_pixel(px, py) == if
                        spec_in_rect(
                        top_left.x as int,
                        top_left.y as int,
                        bottom_right.x as int,
                        y - 1,
                        px,
                        py,
                    ) {
                        color
                    } else {
                        old(vram).spec_pixel(px, py)
                    },
            decreases bottom_right.y + 1 - y,
        {
            fill_row(vram, color, top_left.x, bottom_right.x, y);
            y = y + 1;
        }
    }
}

/// Fills the pixels of one row from `x0` to `x1` inclusive; every other
/// pixel keeps its color.
fn fill_row(vram: &mut Vram, color: Rgb, x0: isize, x1: isize, y: isize)
    requires
        old(vram).wf(),
        0 <= x0 <= x1 < old(vram).x_len,
        0 <= y < old(vram).y_len,
    ensures
        final(vram).wf(),
        final(vram).x_len == old(vram).x_len,
        final(vram).y_len == old(vram).y_len,
        final(vram).bits_per_pixel == old(vram).bits_per_pixel,
        forall|px: int, py: int|
            old(vram).spec_valid_coord(px, py) ==> final(vram).spec_pixel(px, py) == if py == y
                && x0 <= px <= x1 {
                color
            } else {
                old(vram).spec_pixel(px, py)
            },
{
    let mut x = x0;
    while x <= x1
        invariant
            old(vram).wf(),
            vram.wf(),
            vram.x_len == old(vram).x_len,
            vram.y_len == old(vram).y_len,
            vram.bits_per_pixel == old(vram).bits_per_pixel,
            0 <= x0 <= x,
            x <= x1 + 1,
            x1 < old(vram).x_len,
            0 <= y < old(vram).y_len,
            forall|px: int, py: int|
                old(vram).spec_valid_coord(px, py) ==> vram.spec_pixel(px, py) == if py == y && x0
                    <= px <= x - 1 {
                    color
                } else {
                    old(vram).spec_pixel(px, py)
                },
        decreases x1 + 1 - x,
    {
        vram.set_color(Coord { x, y }, color);
        x = x + 1;
    }
}

pub const MOUSE_CURSOR_WIDTH: usize = 16;

pub const MOUSE_CURSOR_HEIGHT: usize = 16;

/// The cursor artwork: `*` for outline, `0` for body, `.` for background.
pub fn mouse_graphic() -> (g: Vec<Vec<char>>)
    ensures
        g.len() == MOUSE_CURSOR_HEIGHT,
        forall|y: int| 0 <= y < g.len() ==> (#[trigger] g[y]).len() == MOUSE_CURSOR_WIDTH,
{
    let g: Vec<Vec<char>> = vec![
        vec!['*', '.', '.', '.', '.', '.', '.', '.', '.', '.', '.', '.', '.', '.', '.', '.'],
        vec!['*', '*', '.', '.', '.', '.', '.', '.', '.', '.', '.', '.', '.', '.', '.', '.'],
        vec!['*', '0', '*', '.', '.', '.', '.', '.', '.', '.', '.', '.', '.', '.', '.', '.'],
        vec!['*', '0', '0', '*', '.', '.', '.', '.', '.', '.', '.', '.', '.', '.', '.', '.'],
        vec!['*', '0', '0', '0', '*', '.', '.', '.', '.', '.', '.', '.', '.', '.', '.', '.'],
        vec!['*', '0', '0', '0', '0', '*', '.', '.', '.', '.', '.', '.', '.', '.', '.', '.'],
        vec!['*', '0', '0', '0', '0', '0', '*', '.', '.', '.', '.', '.', '.', '.', '.', '.'],
        vec!['*', '0', '0', '0', '0', '0', '0', '*', '.', '.', '.', '.', '.', '.', '.', '.'],
        vec!['*', '0', '0', '0', '0', '0', '0', '0', '*', '.', '.', '.', '.', '.', '.', '.'],
        vec!['*', '0', '0', '0', '0', '0', '*', '*', '*', '*', '.', '.', '.', '.', '.', '.'],
        vec!['*', '0', '0', '*', '0', '0', '*', '.', '.', '.', '.', '.', '.', '.', '.', '.'],
        vec!['*', '0', '*', '.', '*', '0', '0', '*', '.', '.', '.', '.', '.', '.', '.', '.'],
        vec!['*', '*', '.', '.', '*', '0', '0', '*', '.', '.', '.', '.', '.', '.', '.', '.'],
        vec!['*', '.', '.', '.', '.', '*', '0', '0', '*', '.', '.', '.', '.', '.', '.', '.'],
        vec!['.', '.', '.', '.', '.', '*', '0', '*', '.', '.', '.', '.', '.', '.', '.', '.'],
        vec!['.', '.', '.', '.', '.', '.', '*', '.', '.', '.', '.', '.', '.', '.', '.', '.'],
    ];
    g
}

/// Color one artwork cell is rendered with.
pub open spec fn spec_dot_color(dot: char, background_color: Rgb) -> Rgb {
    if dot == '*' {
        Rgb::spec_new(0x0000_0000)
    } else if dot == '0' {
        Rgb::spec_new(0x00FF_FFFF)
    } else {
        background_color
    }
}

/// Color the previous cursor position is erased with.
pub open spec fn spec_erase_color() -> Rgb {
    Rgb::spec_new(0x0000_8484)
}

/// The mouse cursor: its position and its rendered 16-by-16 image.
pub struct MouseCursor {
    pub coord: Coord,
    pub image: Vec<Vec<Rgb>>,
}

impl MouseCursor {
    pub open spec fn wf(self) -> bool {
        &&& self.image.len() == MOUSE_CURSOR_HEIGHT
        &&& forall|y: int| 0 <= y < self.image.len() ==> (#[trigger] self.image[y]).len()
            == MOUSE_CURSOR_WIDTH
    }

    /// Renders the artwork: outline cells black, body cells white, the rest
    /// in the background color. The cursor starts at the origin.
    pub fn new(background_color: Rgb, image: &Vec<Vec<char>>) -> (c: MouseCursor)
        requires
            image.len() == MOUSE_CURSOR_HEIGHT,
            forall|y: int| 0 <= y < image.len() ==> (#[trigger] image[y]).len()
                == MOUSE_CURSOR_WIDTH,
        ensures
            c.wf(),
            c.coord == (Coord { x: 0, y: 0 }),
            forall|y: int, x: int|
                0 <= y < MOUSE_CURSOR_HEIGHT && 0 <= x < MOUSE_CURSOR_WIDTH ==> c.image[y][x]
                    == spec_dot_color(image[y][x], background_color),
    {
        let mut colored_dots: Vec<Vec<Rgb>> = Vec::new();
        let mut y: usize = 0;
        while y < MOUSE_CURSOR_HEIGHT
            invariant
                y <= MOUSE_CURSOR_HEIGHT,
                colored_dots.len() == y,
                image.len() == MOUSE_CURSOR_HEIGHT,
                forall|i: int| 0 <= i < image.len() ==> (#[trigger] image[i]).len()
                    == MOUSE_CURSOR_WIDTH,
                forall|i: int| 0 <= i < y ==> (#[trigger] colored_dots[i]).len()
                    == MOUSE_CURSOR_WIDTH,
                forall|i: int, x: int|
                    0 <= i < y && 0 <= x < MOUSE_CURSOR_WIDTH ==> colored_dots[i][x]
                        == spec_dot_color(image[i][x], background_color),
            decreases MOUSE_CURSOR_HEIGHT - y,
        {
            let mut row: Vec<Rgb> = Vec::new();
            let mut x: usize = 0;
            while x < MOUSE_CURSOR_WIDTH
                invariant
                    x <= MOUSE_CURSOR_WIDTH,
                    row.len() == x,
                    y < MOUSE_CURSOR_HEIGHT,
                    image.len() == MOUSE_CURSOR_HEIGHT,
                    forall|i: int| 0 <= i < image.len() ==> (#[trigger] image[i]).len()
                        == MOUSE_CURSOR_WIDTH,
                    forall|j: int|
                        0 <= j < x ==> row[j] == spec_dot_color(
                            image[y as int][j],
                            background_color,
                        ),
                decreases MOUSE_CURSOR_WIDTH - x,
            {
                let dot = image[y][x];
                let colored = if dot == '*' {
                    Rgb::new(0x0000_0000)
                } else if dot == '0' {
                    Rgb::new(0x00FF_FFFF)
                } else {
                    background_color
                };
                row.push(colored);
                x = x + 1;
            }
            colored_dots.push(row);
            y = y + 1;
        }
        MouseCursor { coord: Coord { x: 0, y: 0 }, image: colored_dots }
    }

    /// Erases the cursor's previous position: the 17-by-17 square from its
    /// coordinate is painted in the desktop background color.
    pub fn remove_previous_cursor(&self, vram: &mut Vram)
        requires
            old(vram).wf(),
            0 <= self.coord.x,
            self.coord.x + 16 < old(vram).x_len,
            0 <= self.coord.y,
            self.coord.y + 16 < old(vram).y_len,
        ensures
            final(vram).wf(),
            final(vram).x_len == old(vram).x_len,
            final(vram).y_len == old(vram).y_len,
            final(vram).bits_per_pixel == old(vram).bits_per_pixel,
            forall|px: int, py: int|
                old(vram).spec_valid_coord(px, py) ==> final(vram).spec_pixel(px, py) == if
                    spec_in_rect(
                    self.coord.x as int,
                    self.coord.y as int,
                    self.coord.x + 16,
                    self.coord.y + 16,
                    px,
                    py,
                ) {
                    spec_erase_color()
                } else {
                    old(vram).spec_pixel(px, py)
                },
    {
        let mut screen = Screen;
        screen.draw_rectangle(
            vram,
            Rgb::new(0x0000_8484),
            Coord::new(self.coord.x, self.coord.y),
            Coord::new(self.coord.x + 16, self.coord.y + 16),
        );
    }

    /// Moves the cursor: erases it at its previous position, clamps the
    /// requested position so the image stays on screen, and paints the image
    /// there.
    pub fn draw(&mut self, vram: &mut Vram, coord: Coord)
        requires
            old(vram).wf(),
            old(self).wf(),
            17 <= old(vram).x_len,
            17 <= old(vram).y_len,
            0 <= old(self).coord.x,
            old(self).coord.x + 16 < old(vram).x_len,
            0 <= old(self).coord.y,
            old(self).coord.y + 16 < old(vram).y_len,
        ensures
            final(self).wf(),
            final(self).image == old(self).image,
            final(self).coord == spec_put_in(
                coord,
                Coord { x: 0, y: 0 },
                Coord {
                    x: (old(vram).x_len - 17) as isize,
                    y: (old(vram).y_len - 17) as isize,
                },
            ),
            0 <= final(self).coord.x,
            final(self).coord.x + 16 < old(vram).x_len,
            0 <= final(self).coord.y,
            final(self).coord.y + 16 < old(vram).y_len,
            final(vram).wf(),
            final(vram).x_len == old(vram).x_len,
            final(vram).y_len == old(vram).y_len,
            final(vram).bits_per_pixel == old(vram).bits_per_pixel,
            forall|px: int, py: int|
                old(vram).spec_valid_coord(px, py) ==> final(vram).spec_pixel(px, py) == if
                    spec_in_rect(
                    final(self).coord.x as int,
                    final(self).coord.y as int,
                    final(self).coord.x + 15,
                    final(self).coord.y + 15,
                    px,
                    py,
                ) {
                    final(self).image[py - final(self).coord.y][px - final(self).coord.x]
                } else if spec_in_rect(
                    old(self).coord.x as int,
                    old(self).coord.y as int,
                    old(self).coord.x + 16,
                    old(self).coord.y + 16,
                    px,
                    py,
                ) {
                    spec_erase_color()
                } else {
                    old(vram).spec_pixel(px, py)
                },
    {
        self.remove_previous_cursor(vram);
        let adjusted_coord = coord.put_in(
            Coord::new(0, 0),
            Coord::new((vram.x_len - 17) as isize, (vram.y_len - 17) as isize),
        );
        blit_image(vram, &self.image, adjusted_coord);
        self.coord = adjusted_coord;
    }

    /// Moves the cursor by an offset from its current position.
    pub fn draw_offset(&mut self, vram: &mut Vram, offset: Coord)
        requires
            old(vram).wf(),
            old(self).wf(),
            17 <= old(vram).x_len,
            17 <= old(vram).y_len,
            0 <= old(self).coord.x,
            old(self).coord.x + 16 < old(vram).x_len,
            0 <= old(self).coord.y,
            old(self).coord.y + 16 < old(vram).y_len,
            isize::MIN <= old(self).coord.x + offset.x <= isize::MAX,
            isize::MIN <= old(self).coord.y + offset.y <= isize::MAX,
        ensures
            final(self).wf(),
            final(self).image == old(self).image,
            final(self).coord == spec_put_in(
                Coord {
                    x: (old(self).coord.x + offset.x) as isize,
                    y: (old(self).coord.y + offset.y) as isize,
                },
                Coord { x: 0, y: 0 },
                Coord {
                    x: (old(vram).x_len - 17) as isize,
                    y: (old(vram).y_len - 17) as isize,
                },
            ),
            final(vram).wf(),
            final(vram).x_len == old(vram).x_len,
            final(vram).y_len == old(vram).y_len,
            final(vram).bits_per_pixel == old(vram).bits_per_pixel,
            0 <= final(self).coord.x,
            final(self).coord.x + 16 < old(vram).x_len,
            0 <= final(self).coord.y,
            final(self).coord.y + 16 < old(vram).y_len,
    {
        let new_coord = Coord::new(self.coord.x + offset.x, self.coord.y + offset.y);
        self.draw(vram, new_coord)
    }
}

/// Paints one row of a 16-wide image; every other pixel keeps its color.
fn blit_row(vram: &mut Vram, row: &Vec<Rgb>, x0: isize, y: isize)
    requires
        old(vram).wf(),
        row.len() == MOUSE_CURSOR_WIDTH,
        0 <= x0,
        x0 + 15 < old(vram).x_len,
        0 <= y < old(vram).y_len,
    ensures
        final(vram).wf(),
        final(vram).x_len == old(vram).x_len,
        final(vram).y_len == old(vram).y_len,
        final(vram).bits_per_pixel == old(vram).bits_per_pixel,
        forall|px: int, py: int|
            old(vram).spec_valid_coord(px, py) ==> final(vram).spec_pixel(px, py) == if py == y
                && x0 <= px <= x0 + 15 {
                row[px - x0]
            } else {
                old(vram).spec_pixel(px, py)
            },
{
    let mut x: usize = 0;
    while x < MOUSE_CURSOR_WIDTH
        invariant
            old(vram).wf(),
            vram.wf(),
            vram.x_len == old(vram).x_len,
            vram.y_len == old(vram).y_len,
            vram.bits_per_pixel == old(vram).bits_per_pixel,
            x <= MOUSE_CURSOR_WIDTH,
            row.len() == MOUSE_CURSOR_WIDTH,
            0 <= x0,
            x0 + 15 < old(vram).x_len,
            0 <= y < old(vram).y_len,
            forall|px: int, py: int|
                old(vram).spec_valid_coord(px, py) ==> vram.spec_pixel(px, py) == if py == y && x0
                    <= px < x0 + x {
                    row[px - x0]
                } else {
                    old(vram).spec_pixel(px, py)
                },
        decreases MOUSE_CURSOR_WIDTH - x,
    {
        vram.set_color(Coord { x: x0 + x as isize, y }, row[x]);
        x = x + 1;
    }
}

/// Paints a 16-by-16 image with its top-left corner at `at`; every pixel
/// outside the image keeps its color.
fn blit_image(vram: &mut Vram, image: &Vec<Vec<Rgb>>, at: Coord)
    requires
        old(vram).wf(),
        image.len() == MOUSE_CURSOR_HEIGHT,
        forall|y: int| 0 <= y < image.len() ==> (#[trigger] image[y]).len() == MOUSE_CURSOR_WIDTH,
        0 <= at.x,
        at.x + 15 < old(vram).x_len,
        0 <= at.y,
        at.y + 15 < old(vram).y_len,
    ensures
        final(vram).wf(),
        final(vram).x_len == old(vram).x_len,
        final(vram).y_len == old(vram).y_len,
        final(vram).bits_per_pixel == old(vram).bits_per_pixel,
        forall|px: int, py: int|
            old(vram).spec_valid_coord(px, py) ==> final(vram).spec_pixel(px, py) == if
                spec_in_rect(at.x as int, at.y as int, at.x + 15, at.y + 15, px, py) {
                image[py - at.y][px - at.x]
            } else {
                old(vram).spec_pixel(px, py)
            },
{
    let mut y: usize = 0;
    while y < MOUSE_CURSOR_HEIGHT
        invariant
            old(vram).wf(),
            vram.wf(),
            vram.x_len == old(vram).x_len,
            vram.y_len == old(vram).y_len,
            vram.bits_per_pixel == old(vram).bits_per_pixel,
            y <= MOUSE_CURSOR_HEIGHT,
            image.len() == MOUSE_CURSOR_HEIGHT,
            forall|i: int| 0 <= i < image.len() ==> (#[trigger] image[i]).len()
                == MOUSE_CURSOR_WIDTH,
            0 <= at.x,
            at.x + 15 < old(vram).x_len,
            0 <= at.y,
            at.y + 15 < old(vram).y_len,
            forall|px: int, py: int|
                old(vram).spec_valid_coord(px, py) ==> vram.spec_pixel(px, py) == if at.x <= px
                    <= at.x + 15 && at.y <= py < at.y + y {
                    image[py - at.y][px - at.x]
                } else {
                    old(vram).spec_pixel(px, py)
                },
        decreases MOUSE_CURSOR_HEIGHT - y,
    {
        blit_row(vram, &image[y], at.x, at.y + y as isize);
        y = y + 1;
    }
}

/// Final color of each desktop pixel: the fourteen background and taskbar
/// rectangles in paint order, the later ones covering the earlier.
pub open spec fn spec_desktop_pixel(x_len: int, y_len: int, px: int, py: int) -> Rgb {
    if spec_in_rect(x_len - 3, y_len - 24, x_len - 3, y_len - 3, px, py) {
        Rgb::spec_new(0x00FF_FFFF)
    } else if spec_in_rect(x_len - 47, y_len - 3, x_len - 4, y_len - 3, px, py) {
        Rgb::spec_new(0x00FF_FFFF)
    } else if spec_in_rect(x_len - 47, y_len - 23, x_len - 47, y_len - 4, px, py) {
        Rgb::spec_new(0x0084_8484)
    } else if spec_in_rect(x_len - 47, y_len - 24, x_len - 4, y_len - 24, px, py) {
        Rgb::spec_new(0x0084_8484)
    } else if spec_in_rect(60, y_len - 24, 60, y_len - 3, px, py) {
        Rgb::spec_new(0x0000_0000)
    } else if spec_in_rect(2, y_len - 3, 59, y_len - 3, px, py) {
        Rgb::spec_new(0x0000_0000)
    } else if spec_in_rect(59, y_len - 23, 59, y_len - 5, px, py) {
        Rgb::spec_new(0x0084_8484)
    } else if spec_in_rect(3, y_len - 4, 59, y_len - 4, px, py) {
        Rgb::spec_new(0x0084_8484)
    } else if spec_in_rect(2, y_len - 24, 2, y_len - 4, px, py) {
        Rgb::spec_new(0x00FF_FFFF)
    } else if spec_in_rect(3, y_len - 24, 59, y_len - 24, px, py) {
        Rgb::spec_new(0x00FF_FFFF)
    } else if spec_in_rect(0, y_len - 26, x_len - 1, y_len - 1, px, py) {
        Rgb::spec_new(0x00C6_C6C6)
    } else if spec_in_rect(0, y_len - 27, x_len - 1, y_len - 27, px, py) {
        Rgb::spec_new(0x00FF_FFFF)
    } else if spec_in_rect(0, y_len - 28, x_len - 1, y_len - 28, px, py) {
        Rgb::spec_new(0x00C6_C6C6)
    } else {
        Rgb::spec_new(0x0000_8484)
    }
}

/// Paints the desktop: the background field, the horizontal separator
/// lines, and the two taskbar button frames, each pixel ending in the color
/// of the last rectangle covering it.
#[verifier::rlimit(60)]
pub fn draw_desktop(vram: &mut Vram)
    requires
        old(vram).wf(),
        61 <= old(vram).x_len,
        29 <= old(vram).y_len,
    ensures
        final(vram).wf(),
        final(vram).x_len == old(vram).x_len,
        final(vram).y_len == old(vram).y_len,
        final(vram).bits_per_pixel == old(vram).bits_per_pixel,
        forall|px: int, py: int|
            old(vram).spec_valid_coord(px, py) ==> final(vram).spec_pixel(px, py)
                == spec_desktop_pixel(old(vram).x_len as int, old(vram).y_len as int, px, py),
{
    let x_len = vram.x_len as isize;
    let y_len = vram.y_len as isize;
    let mut screen = Screen;

    screen.draw_rectangle(vram, Rgb::new(0x0000_8484), Coord::new(0, 0), Coord::new(x_len - 1, y_len - 29));
    screen.draw_rectangle(vram, Rgb::new(0x00C6_C6C6), Coord::new(0, y_len - 28), Coord::new(x_len - 1, y_len - 28));
    screen.draw_rectangle(vram, Rgb::new(0x00FF_FFFF), Coord::new(0, y_len - 27), Coord::new(x_len - 1, y_len - 27));
    screen.draw_rectangle(vram, Rgb::new(0x00C6_C6C6), Coord::new(0, y_len - 26), Coord::new(x_len - 1, y_len - 1));

    screen.draw_rectangle(vram, Rgb::new(0x00FF_FFFF), Coord::new(3, y_len - 24), Coord::new(59, y_len - 24));
    screen.draw_rectangle(vram, Rgb::new(0x00FF_FFFF), Coord::new(2, y_len - 24), Coord::new(2, y_len - 4));
    screen.draw_rectangle(vram, Rgb::new(0x0084_8484), Coord::new(3, y_len - 4), Coord::new(59, y_len - 4));
    screen.draw_rectangle(vram, Rgb::new(0x0084_8484), Coord::new(59, y_len - 23), Coord::new(59, y_len - 5));
    screen.draw_rectangle(vram, Rgb::new(0x0000_0000), Coord::new(2, y_len - 3), Coord::new(59, y_len - 3));
    screen.draw_rectangle(vram, Rgb::new(0x0000_0000), Coord::new(60, y_len - 24), Coord::new(60, y_len - 3));

    screen.draw_rectangle(vram, Rgb::new(0x0084_8484), Coord::new(x_len - 47, y_len - 24), Coord::new(x_len - 4, y_len - 24));
    screen.draw_rectangle(vram, Rgb::new(0x0084_8484), Coord::new(x_len - 47, y_len - 23), Coord::new(x_len - 47, y_len - 4));
    screen.draw_rectangle(vram, Rgb::new(0x00FF_FFFF), Coord::new(x_len - 47, y_len - 3), Coord::new(x_len - 4, y_len - 3));
    screen.draw_rectangle(vram, Rgb::new(0x00FF_FFFF), Coord::new(x_len - 3, y_len - 24), Coord::new(x_len - 3, y_len - 3));
}

} // verus!
