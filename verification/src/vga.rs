//! The earlier, palette-indexed generation of the screen code: colors are
//! indices into a 16-entry palette and each pixel is one byte.

use vstd::prelude::*;

verus! {

/// Palette indices of the 16 colors the desktop uses.
#[derive(Clone, Copy, PartialEq, Eq, Structural, Debug)]
pub enum ColorIndex {
    Rgb000000,
    _RgbFF0000,
    _Rgb00FF00,
    _RgbFFFF00,
    _Rgb0000FF,
    _RgbFF00FF,
    _Rgb00FFFF,
    RgbFFFFFF,
    RgbC6C6C6,
    _Rgb840000,
    _Rgb008400,
    _Rgb848400,
    _Rgb000084,
    _Rgb840084,
    Rgb008484,
    Rgb848484,
}

/// Palette slot a color index selects.
pub open spec fn spec_color_code(color: ColorIndex) -> u8 {
    match color {
        ColorIndex::Rgb000000 => 0,
        ColorIndex::_RgbFF0000 => 1,
        ColorIndex::_Rgb00FF00 => 2,
        ColorIndex::_RgbFFFF00 => 3,
        ColorIndex::_Rgb0000FF => 4,
        ColorIndex::_RgbFF00FF => 5,
        ColorIndex::_Rgb00FFFF => 6,
        ColorIndex::RgbFFFFFF => 7,
        ColorIndex::RgbC6C6C6 => 8,
        ColorIndex::_Rgb840000 => 9,
        ColorIndex::_Rgb008400 => 10,
        ColorIndex::_Rgb848400 => 11,
        ColorIndex::_Rgb000084 => 12,
        ColorIndex::_Rgb840084 => 13,
        ColorIndex::Rgb008484 => 14,
        ColorIndex::Rgb848484 => 15,
    }
}

impl ColorIndex {
    /// The byte written to video memory for this color.
    pub fn code(self) -> (r: u8)
        ensures
            r == spec_color_code(self),
    {
        match self {
            ColorIndex::Rgb000000 => 0,
            ColorIndex::_RgbFF0000 => 1,
            ColorIndex::_Rgb00FF00 => 2,
            ColorIndex::_RgbFFFF00 => 3,
            ColorIndex::_Rgb0000FF => 4,
            ColorIndex::_RgbFF00FF => 5,
            ColorIndex::_Rgb00FFFF => 6,
            ColorIndex::RgbFFFFFF => 7,
            ColorIndex::RgbC6C6C6 => 8,
            ColorIndex::_Rgb840000 => 9,
            ColorIndex::_Rgb008400 => 10,
            ColorIndex::_Rgb848400 => 11,
            ColorIndex::_Rgb000084 => 12,
            ColorIndex::_Rgb840084 => 13,
            ColorIndex::Rgb008484 => 14,
            ColorIndex::Rgb848484 => 15,
        }
    }
}

/// A point on the palette-indexed screen.
#[derive(Clone, Copy, PartialEq, Eq, Structural, Debug)]
pub struct Coord {
    pub x: isize,
    pub y: isize,
}

impl Coord {
    pub fn new(x: isize, y: isize) -> (c: Self)
        ensures
            c == (Coord { x, y }),
    {
        Coord { x, y }
    }
}

/// Palette byte one artwork cell is rendered with: outline cells black,
/// body cells white, the rest in the background color.
pub open spec fn spec_palette_dot(dot: char, background_color: ColorIndex) -> u8 {
    if dot == '*' {
        spec_color_code(ColorIndex::Rgb000000)
    } else if dot == '0' {
        spec_color_code(ColorIndex::RgbFFFFFF)
    } else {
        spec_color_code(background_color)
    }
}

/// The mouse cursor of the palette generation: a position and a 16-by-16
/// block of palette bytes.
pub struct MouseCursor {
    pub coord: Coord,
    pub image: Vec<Vec<u8>>,
}

impl MouseCursor {
    pub open spec fn wf(self) -> bool {
        &&& self.image.len() == crate::screen::MOUSE_CURSOR_HEIGHT
        &&& forall|y: int| 0 <= y < self.image.len() ==> (#[trigger] self.image[y]).len()
            == crate::screen::MOUSE_CURSOR_WIDTH
    }

    /// Renders the artwork into palette bytes at the given position.
    pub fn new(coord: Coord, background_color: ColorIndex, image: &Vec<Vec<char>>) -> (c:
        MouseCursor)
        requires
            image.len() == crate::screen::MOUSE_CURSOR_HEIGHT,
            forall|y: int| 0 <= y < image.len() ==> (#[trigger] image[y]).len()
                == crate::screen::MOUSE_CURSOR_WIDTH,
        ensures
            c.wf(),
            c.coord == coord,
            forall|y: int, x: int|
                0 <= y < crate::screen::MOUSE_CURSOR_HEIGHT && 0 <= x
                    < crate::screen::MOUSE_CURSOR_WIDTH ==> c.image[y][x] == spec_palette_dot(
                    image[y][x],
                    background_color,
                ),
    {
        let mut colored_dots: Vec<Vec<u8>> = Vec::new();
        let mut y: usize = 0;
        while y < crate::screen::MOUSE_CURSOR_HEIGHT
            invariant
                y <= crate::screen::MOUSE_CURSOR_HEIGHT,
                colored_dots.len() == y,
                image.len() == crate::screen::MOUSE_CURSOR_HEIGHT,
                forall|i: int| 0 <= i < image.len() ==> (#[trigger] image[i]).len()
                    == crate::screen::MOUSE_CURSOR_WIDTH,
                forall|i: int| 0 <= i < y ==> (#[trigger] colored_dots[i]).len()
                    == crate::screen::MOUSE_CURSOR_WIDTH,
                forall|i: int, x: int|
                    0 <= i < y && 0 <= x < crate::screen::MOUSE_CURSOR_WIDTH ==> colored_dots[i][x]
                        == spec_palette_dot(image[i][x], background_color),
            decreases crate::screen::MOUSE_CURSOR_HEIGHT - y,
        {
            let mut row: Vec<u8> = Vec::new();
            let mut x: usize = 0;
            while x < crate::screen::MOUSE_CURSOR_WIDTH
                invariant
                    x <= crate::screen::MOUSE_CURSOR_WIDTH,
                    row.len() == x,
                    y < crate::screen::MOUSE_CURSOR_HEIGHT,
                    image.len() == crate::screen::MOUSE_CURSOR_HEIGHT,
                    forall|i: int| 0 <= i < image.len() ==> (#[trigger] image[i]).len()
                        == crate::screen::MOUSE_CURSOR_WIDTH,
                    forall|j: int|
                        0 <= j < x ==> row[j] == spec_palette_dot(
                            image[y as int][j],
                            background_color,
                        ),
                decreases crate::screen::MOUSE_CURSOR_WIDTH - x,
            {
                let dot = image[y][x];
                let colored = if dot == '*' {
                    ColorIndex::Rgb000000.code()
                } else if dot == '0' {
                    ColorIndex::RgbFFFFFF.code()
                } else {
                    background_color.code()
                };
                row.push(colored);
                x = x + 1;
            }
            colored_dots.push(row);
            y = y + 1;
        }
        MouseCursor { coord, image: colored_dots }
    }
}

} // verus!
