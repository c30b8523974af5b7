//! Bring-up library for a 32-bit text-mode kernel: a VGA console driver with
//! cursor advance, line wrap, scrolling and clearing; construction of the
//! interrupt descriptor table that routes every CPU exception to one fatal
//! handler; the fatal screens painted on an exception or a kernel panic; and
//! the boot status report. Every operation carries a contract over a
//! mathematical model of the screen, and the stated rendering laws are proved.

pub mod boot;
pub mod console;
pub mod fatal;
pub mod idt;
pub mod laws;
