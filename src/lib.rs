//! Memory bus and peripheral chips of an early compact Macintosh: the address
//! decoder, the VIA and IWM register models, the debug trap protocol and the
//! framebuffer conversion. The CPU core itself lives outside this library and
//! talks to it through the byte/word/long access functions of `memory`.

pub mod address_map;
pub mod debug;
pub mod iwm;
pub mod memory;
pub mod via;
pub mod video;
