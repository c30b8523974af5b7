//! The fatal path. A trapped CPU exception and a kernel panic converge on
//! the same behaviour: take over the screen with a fresh console in the
//! alert colors, paint a banner (and, on a panic, the source location when
//! one is known), then halt. Painting the screen is pure computation and is
//! verified here; the halt loop itself never returns and is left to the
//! surrounding program.

use vstd::prelude::*;
use vstd::string::StringSliceAdditionalSpecFns;

use crate::console::spec_pack_attr;
use crate::console::state_clear;
use crate::console::state_write_bytes;
use crate::console::lemma_write_bytes_concat;
use crate::console::Color;
use crate::console::Writer;

verus! {

/// The alert attribute: white text on a red background, chosen for maximum
/// distinction from the normal boot colors.
pub open spec fn fatal_attr() -> u8 {
    spec_pack_attr(Color::White, Color::Red)
}

/// Everything the exception screen writes after the clear.
pub open spec fn exception_text() -> Seq<u8> {
    "EXCEPTION HANDLER CALLED!\n".spec_bytes() + "Halting system...\n".spec_bytes()
}

/// Everything the panic screen writes after the clear: the banner, then
/// the source location when one is known.
pub open spec fn panic_text(location: Option<&str>) -> Seq<u8> {
    match location {
        Some(file) => "KERNEL PANIC!\n\n".spec_bytes() + "Location: ".spec_bytes()
            + file.spec_bytes() + "\n".spec_bytes(),
        None => "KERNEL PANIC!\n\n".spec_bytes(),
    }
}

/// The screen every trapped CPU exception leaves behind: a fresh console in
/// the alert colors, cleared, with the fixed fatal banner. The caller halts
/// the processor afterwards and never returns.
pub fn exception_screen() -> (w: Writer)
    ensures
        w.wf(),
        w.color == fatal_attr(),
        w.abs() == state_write_bytes(state_clear(fatal_attr()), exception_text()),
{
    let mut w = Writer::new(Color::White, Color::Red);
    w.clear_screen();
    w.write_string("EXCEPTION HANDLER CALLED!\n");
    w.write_string("Halting system...\n");
    proof {
        lemma_write_bytes_concat(
            state_clear(fatal_attr()),
            "EXCEPTION HANDLER CALLED!\n".spec_bytes(),
            "Halting system...\n".spec_bytes(),
        );
    }
    w
}

/// The screen a kernel panic leaves behind: a fresh console in the alert
/// colors, cleared, the fixed panic banner, and the source location when
/// the runtime supplied one. The caller halts the processor afterwards and
/// never returns.
pub fn panic_screen(location: Option<&str>) -> (w: Writer)
    ensures
        w.wf(),
        w.color == fatal_attr(),
        w.abs() == state_write_bytes(state_clear(fatal_attr()), panic_text(location)),
{
    let mut w = Writer::new(Color::White, Color::Red);
    w.clear_screen();
    w.write_string("KERNEL PANIC!\n\n");
    match location {
        Some(file) => {
            w.write_string("Location: ");
            proof {
                lemma_write_bytes_concat(
                    state_clear(fatal_attr()),
                    "KERNEL PANIC!\n\n".spec_bytes(),
                    "Location: ".spec_bytes(),
                );
            }
            w.write_string(file);
            proof {
                lemma_write_bytes_concat(
                    state_clear(fatal_attr()),
                    "KERNEL PANIC!\n\n".spec_bytes() + "Location: ".spec_bytes(),
                    file.spec_bytes(),
                );
            }
            w.write_string("\n");
            proof {
                lemma_write_bytes_concat(
                    state_clear(fatal_attr()),
                    "KERNEL PANIC!\n\n".spec_bytes() + "Location: ".spec_bytes()
                        + file.spec_bytes(),
                    "\n".spec_bytes(),
                );
            }
        },
        None => {},
    }
    w
}

} // verus!
