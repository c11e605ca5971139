//! A verified model of an Sv39-style three-level page table: 39-bit virtual
//! addresses split into three 9-bit indices, 4 KiB pages, and fixed-width
//! page-table entries that pack a 44-bit physical frame number above an
//! 8-bit flag field.
//!
//! The crate provides the page-table entry encoding, the address and index
//! value types, a frame allocator with a live-frame count, and the page
//! table itself with its three-level walk (`map`, `unmap`, `translate`).

pub mod addr;
pub mod frame_allocator;
pub mod page_table;
pub mod pte;
