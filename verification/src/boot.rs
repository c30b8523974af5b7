//! The boot sequencer. Immediately after the bootloader hands off, the
//! fault table must be installed before anything else, so that any fault
//! during console setup is already caught; then a console in the normal
//! colors is constructed, the screen cleared, and the status report
//! written. Building the table and painting the report are pure
//! computation and are verified here; loading the table into the CPU and
//! the final halt loop are left to the surrounding program.

use vstd::prelude::*;
use vstd::string::StringSliceAdditionalSpecFns;

use crate::console::spec_pack_attr;
use crate::console::state_clear;
use crate::console::state_write_bytes;
use crate::console::lemma_write_bytes_concat;
use crate::console::Color;
use crate::console::ScreenState;
use crate::console::Writer;
use crate::idt::init_idt;
use crate::idt::is_gate_for;
use crate::idt::IdtDescriptor;
use crate::idt::IdtEntry;
use crate::idt::IDT_ENTRIES;
use crate::idt::IDT_ENTRY_BYTES;

verus! {

/// The normal boot attribute: light green text on a black background.
pub open spec fn boot_attr() -> u8 {
    spec_pack_attr(Color::LightGreen, Color::Black)
}

/// The full status report the boot sequencer writes after the clear: the
/// banner, one line per completed initialization step, and the static
/// system-information block.
pub open spec fn boot_text() -> Seq<u8> {
    "====================================\n".spec_bytes()
        + "     Delta OS Kernel v0.1.0\n".spec_bytes()
        + "====================================\n\n".spec_bytes()
        + "[OK] Kernel loaded successfully\n".spec_bytes()
        + "[OK] IDT initialized\n".spec_bytes()
        + "[OK] Protected mode active\n".spec_bytes()
        + "[OK] VGA text mode initialized\n".spec_bytes()
        + "[OK] Kernel running in 32-bit mode\n\n".spec_bytes()
        + "System Information:\n".spec_bytes()
        + "  - Architecture: x86 (32-bit)\n".spec_bytes()
        + "  - Memory Model: Flat\n".spec_bytes()
        + "  - Display: VGA 80x25 Text Mode\n\n".spec_bytes()
        + "Kernel initialized. System halted.\n".spec_bytes()
        + "\nDelta OS - Built with Rust\n".spec_bytes()
}

/// The boot status screen: a fresh console in the normal colors, cleared,
/// with the full status report written.
pub fn boot_screen() -> (w: Writer)
    ensures
        w.wf(),
        w.color == boot_attr(),
        w.abs() == state_write_bytes(state_clear(boot_attr()), boot_text()),
{
    let mut w = Writer::new(Color::LightGreen, Color::Black);
    w.clear_screen();
    w.write_string("====================================\n");
    w.write_string("     Delta OS Kernel v0.1.0\n");
    w.write_string("====================================\n\n");
    w.write_string("[OK] Kernel loaded successfully\n");
    w.write_string("[OK] IDT initialized\n");
    w.write_string("[OK] Protected mode active\n");
    w.write_string("[OK] VGA text mode initialized\n");
    w.write_string("[OK] Kernel running in 32-bit mode\n\n");
    w.write_string("System Information:\n");
    w.write_string("  - Architecture: x86 (32-bit)\n");
    w.write_string("  - Memory Model: Flat\n");
    w.write_string("  - Display: VGA 80x25 Text Mode\n\n");
    w.write_string("Kernel initialized. System halted.\n");
    w.write_string("\nDelta OS - Built with Rust\n");
    proof {
        let t0 = state_clear(boot_attr());
        let b1 = "====================================\n".spec_bytes();
        let b2 = "     Delta OS Kernel v0.1.0\n".spec_bytes();
        let b3 = "====================================\n\n".spec_bytes();
        let b4 = "[OK] Kernel loaded successfully\n".spec_bytes();
        let b5 = "[OK] IDT initialized\n".spec_bytes();
        let b6 = "[OK] Protected mode active\n".spec_bytes();
        let b7 = "[OK] VGA text mode initialized\n".spec_bytes();
        let b8 = "[OK] Kernel running in 32-bit mode\n\n".spec_bytes();
        let b9 = "System Information:\n".spec_bytes();
        let b10 = "  - Architecture: x86 (32-bit)\n".spec_bytes();
        let b11 = "  - Memory Model: Flat\n".spec_bytes();
        let b12 = "  - Display: VGA 80x25 Text Mode\n\n".spec_bytes();
        let b13 = "Kernel initialized. System halted.\n".spec_bytes();
        let b14 = "\nDelta OS - Built with Rust\n".spec_bytes();
        lemma_write_bytes_concat(t0, b1, b2);
        lemma_write_bytes_concat(t0, b1 + b2, b3);
        lemma_write_bytes_concat(t0, b1 + b2 + b3, b4);
        lemma_write_bytes_concat(t0, b1 + b2 + b3 + b4, b5);
        lemma_write_bytes_concat(t0, b1 + b2 + b3 + b4 + b5, b6);
        lemma_write_bytes_concat(t0, b1 + b2 + b3 + b4 + b5 + b6, b7);
        lemma_write_bytes_concat(t0, b1 + b2 + b3 + b4 + b5 + b6 + b7, b8);
        lemma_write_bytes_concat(t0, b1 + b2 + b3 + b4 + b5 + b6 + b7 + b8, b9);
        lemma_write_bytes_concat(t0, b1 + b2 + b3 + b4 + b5 + b6 + b7 + b8 + b9, b10);
        lemma_write_bytes_concat(t0, b1 + b2 + b3 + b4 + b5 + b6 + b7 + b8 + b9 + b10, b11);
        lemma_write_bytes_concat(t0, b1 + b2 + b3 + b4 + b5 + b6 + b7 + b8 + b9 + b10 + b11, b12);
        lemma_write_bytes_concat(
            t0,
            b1 + b2 + b3 + b4 + b5 + b6 + b7 + b8 + b9 + b10 + b11 + b12,
            b13,
        );
        lemma_write_bytes_concat(
            t0,
            b1 + b2 + b3 + b4 + b5 + b6 + b7 + b8 + b9 + b10 + b11 + b12 + b13,
            b14,
        );
    }
    w
}

/// The whole hand-off sequence as far as it is computation: first the
/// fault table for the given handler address and table base, so that it
/// can be installed before anything that could fault, then the boot status
/// screen. The caller loads the descriptor before using the screen, and
/// halts when done.
pub fn boot(handler: u32, base: u32) -> (r: (Vec<IdtEntry>, IdtDescriptor, Writer))
    ensures
        r.0@.len() == IDT_ENTRIES,
        forall|i: int| 0 <= i < IDT_ENTRIES ==> is_gate_for(r.0@[i], handler),
        r.1.base == base,
        r.1.limit as int == IDT_ENTRIES as int * IDT_ENTRY_BYTES as int - 1,
        r.2.wf(),
        r.2.color == boot_attr(),
        r.2.abs() == state_write_bytes(state_clear(boot_attr()), boot_text()),
{
    let (table, descriptor) = init_idt(handler, base);
    let screen = boot_screen();
    (table, descriptor, screen)
}

} // verus!
