//! Verified core of the Flower kernel: allocators, paging arithmetic, device protocol decoding
//! and terminal logic.


pub mod buddy;
pub mod util;
pub mod bits;
pub mod io;
pub mod pic;
pub mod legacy_pic;
pub mod pit;
pub mod serial;
pub mod color;
pub mod log;
pub mod terminal;
pub mod vga;
pub mod text_area;
pub mod area_writer;
pub mod process;
pub mod userspace;
pub mod acpi;
pub mod heap;
pub mod bootstrap_heap;
pub mod memory;
pub mod remap;
pub mod snake;
pub mod ps2;
pub mod ps2_io;
pub mod ps2_controller;
pub mod legacy_keyboard;
pub mod paging;
pub mod page_map;
pub mod stack_allocator;
pub mod physical_allocator;
pub mod keymap;
pub mod keyboard;
pub mod scanset_2;
