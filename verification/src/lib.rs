//! A cycle-stepped model of a Commodore 64 class machine: a 6510 processor
//! driven one bus transaction at a time, the address decoder with its banked
//! RAM and ROM, and the register files of the video, sound and interface chips.

pub mod bus;
pub mod clock;
pub mod console;
pub mod cpu;
pub mod io;
pub mod machine;
pub mod screen;
