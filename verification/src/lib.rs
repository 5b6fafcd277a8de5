//! Verified core of an xHCI (USB3 host controller) bring-up path for a small
//! kernel: PCI configuration-space decoding, capability-list walking, MSI-X
//! table modeling, the controller initialization state machine, and the
//! command ring, together with the framebuffer drawing and interrupt-setup
//! helpers of the surrounding kernel.
//!
//! Hardware access itself (port I/O, volatile MMIO) cannot be verified; the
//! library works on plain snapshots of configuration space and registers, and
//! states bit-exact contracts over them. An unverified shell performs the
//! actual bus transactions and hands the values in and out.

pub mod capability;
pub mod dcbaa;
pub mod memory;
pub mod msi_x;
pub mod pci;
pub mod pic;
pub mod registers;
pub mod ring;
pub mod screen;
pub mod vga;
pub mod xhci;
