//! Programming of the two cascaded legacy interrupt controllers.
//!
//! Each step of the setup is one byte written to one I/O port. The library
//! computes the exact write sequences; the shell performs them with port
//! output instructions, in order.

use vstd::prelude::*;

verus! {

pub const PIC0_ICW1: u16 = 0x0020;

pub const PIC0_OCW2: u16 = 0x0020;

pub const PIC0_IMR: u16 = 0x0021;

pub const PIC0_ICW2: u16 = 0x0021;

pub const PIC0_ICW3: u16 = 0x0021;

pub const PIC0_ICW4: u16 = 0x0021;

pub const PIC1_ICW1: u16 = 0x00a0;

pub const PIC1_IMR: u16 = 0x00a1;

pub const PIC1_ICW2: u16 = 0x00a1;

pub const PIC1_ICW3: u16 = 0x00a1;

pub const PIC1_ICW4: u16 = 0x00a1;

/// One byte written to one I/O port.
#[derive(Clone, Copy, PartialEq, Eq, Structural, Debug)]
pub struct PortWrite {
    pub port: u16,
    pub value: u8,
}

/// The initialization sequence of both interrupt controllers: mask
/// everything, run the four-word initialization of each chip (edge
/// triggered, cascade on line 2, vectors 0x20 and 0x28, 8086 mode), then
/// unmask only the cascade line.
pub fn init_pic() -> (r: Vec<PortWrite>)
    ensures
        r.len() == 12,
        r[0] == (PortWrite { port: PIC0_IMR, value: 0xff }),
        r[1] == (PortWrite { port: PIC1_IMR, value: 0xff }),
        r[2] == (PortWrite { port: PIC0_ICW1, value: 0x11 }),
        r[3] == (PortWrite { port: PIC0_ICW2, value: 0x20 }),
        r[4] == (PortWrite { port: PIC0_ICW3, value: 4 }),
        r[5] == (PortWrite { port: PIC0_ICW4, value: 0x01 }),
        r[6] == (PortWrite { port: PIC1_ICW1, value: 0x11 }),
        r[7] == (PortWrite { port: PIC1_ICW2, value: 0x28 }),
        r[8] == (PortWrite { port: PIC1_ICW3, value: 2 }),
        r[9] == (PortWrite { port: PIC1_ICW4, value: 0x01 }),
        r[10] == (PortWrite { port: PIC0_IMR, value: 0xfb }),
        r[11] == (PortWrite { port: PIC1_IMR, value: 0xff }),
{
    let mut writes: Vec<PortWrite> = Vec::new();
    writes.push(PortWrite { port: PIC0_IMR, value: 0xff });
    writes.push(PortWrite { port: PIC1_IMR, value: 0xff });
    writes.push(PortWrite { port: PIC0_ICW1, value: 0x11 });
    writes.push(PortWrite { port: PIC0_ICW2, value: 0x20 });
    // Cascade mask: the secondary controller hangs off line 2.
    writes.push(PortWrite { port: PIC0_ICW3, value: 4 });
    writes.push(PortWrite { port: PIC0_ICW4, value: 0x01 });
    writes.push(PortWrite { port: PIC1_ICW1, value: 0x11 });
    writes.push(PortWrite { port: PIC1_ICW2, value: 0x28 });
    writes.push(PortWrite { port: PIC1_ICW3, value: 2 });
    writes.push(PortWrite { port: PIC1_ICW4, value: 0x01 });
    writes.push(PortWrite { port: PIC0_IMR, value: 0xfb });
    writes.push(PortWrite { port: PIC1_IMR, value: 0xff });
    writes
}

/// The mask update that unmasks the keyboard line on the first controller
/// and the mouse line on the second.
pub fn enable_pic1_keyboard_mouse() -> (r: Vec<PortWrite>)
    ensures
        r.len() == 2,
        r[0] == (PortWrite { port: PIC0_IMR, value: 0xf9 }),
        r[1] == (PortWrite { port: PIC1_IMR, value: 0xef }),
{
    let mut writes: Vec<PortWrite> = Vec::new();
    writes.push(PortWrite { port: PIC0_IMR, value: 0xf9 });
    writes.push(PortWrite { port: PIC1_IMR, value: 0xef });
    writes
}

} // verus!
