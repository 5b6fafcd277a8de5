use ramen::pic::{enable_pic1_keyboard_mouse, init_pic};
use ramen::screen::{
    draw_desktop, mouse_graphic, Coord, MouseCursor, Rgb, Screen, Vram, MOUSE_CURSOR_HEIGHT,
    MOUSE_CURSOR_WIDTH,
};
use ramen::vga;

fn pixel_of(v: &Vram, x: usize, y: usize) -> Rgb {
    let bytes_per_pixel = (v.bits_per_pixel / 8) as usize;
    let offset = (y * v.x_len + x) * bytes_per_pixel;
    Rgb { r: v.buf[offset + 2], g: v.buf[offset + 1], b: v.buf[offset] }
}

#[test]
fn rgb_splits_channels() {
    let c = Rgb::new(0x0012_3456);
    assert_eq!(c.r, 0x12);
    assert_eq!(c.g, 0x34);
    assert_eq!(c.b, 0x56);
}

#[test]
fn put_in_clamps_each_axis() {
    let low = Coord::new(0, 0);
    let high = Coord::new(10, 20);
    let inside = Coord::new(5, 6).put_in(low, high);
    assert_eq!((inside.x, inside.y), (5, 6));
    let below = Coord::new(-3, -7).put_in(low, high);
    assert_eq!((below.x, below.y), (0, 0));
    let above = Coord::new(30, 40).put_in(low, high);
    assert_eq!((above.x, above.y), (10, 20));
    let mixed = Coord::new(-1, 25).put_in(low, high);
    assert_eq!((mixed.x, mixed.y), (0, 20));
}

#[test]
fn set_color_writes_bgr_bytes() {
    let mut v = Vram::new(4, 4, 32);
    v.set_color(Coord::new(2, 1), Rgb::new(0x00AA_BBCC));
    let offset = (1 * 4 + 2) * 4;
    assert_eq!(v.buf[offset], 0xCC);
    assert_eq!(v.buf[offset + 1], 0xBB);
    assert_eq!(v.buf[offset + 2], 0xAA);
    assert_eq!(v.buf[offset + 3], 0);
    assert_eq!(pixel_of(&v, 0, 0), Rgb::new(0));
}

#[test]
fn draw_rectangle_fills_exactly_the_rectangle() {
    let mut v = Vram::new(8, 8, 24);
    let mut screen = Screen;
    screen.draw_rectangle(&mut v, Rgb::new(0x00FF_0000), Coord::new(2, 3), Coord::new(5, 6));
    for y in 0..8 {
        for x in 0..8 {
            let expected = if (2..=5).contains(&x) && (3..=6).contains(&y) {
                Rgb::new(0x00FF_0000)
            } else {
                Rgb::new(0)
            };
            assert_eq!(pixel_of(&v, x, y), expected);
        }
    }
}

#[test]
fn desktop_background_and_taskbar_colors() {
    let mut v = Vram::new(64, 48, 24);
    draw_desktop(&mut v);
    // Background field.
    assert_eq!(pixel_of(&v, 10, 10), Rgb::new(0x0000_8484));
    // The three separator lines above the taskbar.
    assert_eq!(pixel_of(&v, 10, 48 - 28), Rgb::new(0x00C6_C6C6));
    assert_eq!(pixel_of(&v, 10, 48 - 27), Rgb::new(0x00FF_FFFF));
    assert_eq!(pixel_of(&v, 10, 48 - 26), Rgb::new(0x00C6_C6C6));
    // The left button frame.
    assert_eq!(pixel_of(&v, 3, 48 - 24), Rgb::new(0x00FF_FFFF));
    assert_eq!(pixel_of(&v, 60, 48 - 10), Rgb::new(0x0000_0000));
    // The right button frame.
    assert_eq!(pixel_of(&v, 64 - 3, 48 - 10), Rgb::new(0x00FF_FFFF));
    assert_eq!(pixel_of(&v, 64 - 47, 48 - 24), Rgb::new(0x0084_8484));
}

#[test]
fn mouse_graphic_is_sixteen_by_sixteen() {
    let g = mouse_graphic();
    assert_eq!(g.len(), MOUSE_CURSOR_HEIGHT);
    for row in &g {
        assert_eq!(row.len(), MOUSE_CURSOR_WIDTH);
    }
    assert_eq!(g[0][0], '*');
    assert_eq!(g[2][1], '0');
    assert_eq!(g[0][15], '.');
}

#[test]
fn mouse_cursor_renders_artwork() {
    let background = Rgb::new(0x0000_8484);
    let cursor = MouseCursor::new(background, &mouse_graphic());
    assert_eq!((cursor.coord.x, cursor.coord.y), (0, 0));
    assert_eq!(cursor.image[0][0], Rgb::new(0x0000_0000));
    assert_eq!(cursor.image[2][1], Rgb::new(0x00FF_FFFF));
    assert_eq!(cursor.image[0][15], background);
}

#[test]
fn cursor_draw_offset_moves_and_paints() {
    let mut v = Vram::new(64, 64, 24);
    let mut cursor = MouseCursor::new(Rgb::new(0x0000_8484), &mouse_graphic());
    cursor.draw_offset(&mut v, Coord::new(3, 4));
    assert_eq!((cursor.coord.x, cursor.coord.y), (3, 4));
    // Top-left of the artwork is an outline cell.
    assert_eq!(pixel_of(&v, 3, 4), Rgb::new(0x0000_0000));
    // A body cell two rows into the artwork.
    assert_eq!(pixel_of(&v, 4, 6), Rgb::new(0x00FF_FFFF));
    // A pixel only the erase rectangle covered.
    assert_eq!(pixel_of(&v, 0, 0), Rgb::new(0x0000_8484));
    // A pixel neither rectangle covered keeps its color.
    assert_eq!(pixel_of(&v, 40, 40), Rgb::new(0));
}

#[test]
fn cursor_draw_clamps_to_screen() {
    let mut v = Vram::new(32, 32, 24);
    let mut cursor = MouseCursor::new(Rgb::new(0x0000_8484), &mouse_graphic());
    cursor.draw(&mut v, Coord::new(500, -9));
    assert_eq!((cursor.coord.x, cursor.coord.y), (32 - 17, 0));
}

#[test]
fn palette_color_codes() {
    assert_eq!(vga::ColorIndex::Rgb000000.code(), 0);
    assert_eq!(vga::ColorIndex::RgbFFFFFF.code(), 7);
    assert_eq!(vga::ColorIndex::RgbC6C6C6.code(), 8);
    assert_eq!(vga::ColorIndex::Rgb008484.code(), 14);
    assert_eq!(vga::ColorIndex::Rgb848484.code(), 15);
}

#[test]
fn palette_cursor_renders_codes() {
    let cursor = vga::MouseCursor::new(
        vga::Coord::new(7, 9),
        vga::ColorIndex::Rgb008484,
        &mouse_graphic(),
    );
    assert_eq!((cursor.coord.x, cursor.coord.y), (7, 9));
    assert_eq!(cursor.image[0][0], 0); // outline: black
    assert_eq!(cursor.image[2][1], 7); // body: white
    assert_eq!(cursor.image[0][15], 14); // background
}

#[test]
fn pic_initialization_sequence() {
    let writes = init_pic();
    assert_eq!(writes.len(), 12);
    assert_eq!((writes[0].port, writes[0].value), (0x21, 0xff));
    assert_eq!((writes[1].port, writes[1].value), (0xa1, 0xff));
    assert_eq!((writes[2].port, writes[2].value), (0x20, 0x11));
    assert_eq!((writes[3].port, writes[3].value), (0x21, 0x20));
    assert_eq!((writes[4].port, writes[4].value), (0x21, 0x04));
    assert_eq!((writes[5].port, writes[5].value), (0x21, 0x01));
    assert_eq!((writes[6].port, writes[6].value), (0xa0, 0x11));
    assert_eq!((writes[7].port, writes[7].value), (0xa1, 0x28));
    assert_eq!((writes[8].port, writes[8].value), (0xa1, 0x02));
    assert_eq!((writes[9].port, writes[9].value), (0xa1, 0x01));
    assert_eq!((writes[10].port, writes[10].value), (0x21, 0xfb));
    assert_eq!((writes[11].port, writes[11].value), (0xa1, 0xff));
}

#[test]
fn pic_keyboard_mouse_unmask_sequence() {
    let writes = enable_pic1_keyboard_mouse();
    assert_eq!(writes.len(), 2);
    assert_eq!((writes[0].port, writes[0].value), (0x21, 0xf9));
    assert_eq!((writes[1].port, writes[1].value), (0xa1, 0xef));
}
