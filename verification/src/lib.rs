#![allow(non_camel_case_types)]
use vstd::prelude::*;

pub mod bits;
pub mod regfield;
pub mod dmac;
pub mod sysctl;
pub mod spi;
pub mod fpioa;
pub mod gpiohs;
pub mod uarth;
pub mod sleep;
pub mod rtc;
pub mod vfs;
pub mod syscall;
pub mod ramfs;
pub mod fs_manager;
pub mod fs_types;
pub mod devfs;
pub mod terminal;
pub mod virtio;
pub mod buddy_spec;
pub mod heap;
pub mod heap_laws;
pub mod rescue;

verus! {
} // verus!
