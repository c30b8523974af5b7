use delta_os::boot::boot;
use delta_os::boot::boot_screen;
use delta_os::console::Writer;
use delta_os::console::VGA_WIDTH;
use delta_os::fatal::exception_screen;
use delta_os::fatal::panic_screen;
use delta_os::idt::init_idt;
use delta_os::idt::IdtDescriptor;
use delta_os::idt::IdtEntry;
use delta_os::idt::GATE_TYPE_ATTR;
use delta_os::idt::IDT_ENTRIES;
use delta_os::idt::IDT_ENTRY_BYTES;
use delta_os::idt::KERNEL_CODE_SELECTOR;

fn screen_row(w: &Writer, r: usize) -> String {
    let mut s = String::new();
    for c in 0..VGA_WIDTH {
        s.push(w.cell_at(r, c).ch as char);
    }
    s
}

#[test]
fn idt_entry_new_has_fixed_fields() {
    let e = IdtEntry::new();
    assert_eq!(e.offset_low, 0);
    assert_eq!(e.offset_high, 0);
    assert_eq!(e.selector, KERNEL_CODE_SELECTOR);
    assert_eq!(e.selector, 0x08);
    assert_eq!(e.type_attr, GATE_TYPE_ATTR);
    assert_eq!(e.type_attr, 0x8E);
    assert_eq!(e.zero, 0);
}

#[test]
fn set_handler_splits_address_into_halves() {
    let mut e = IdtEntry::new();
    e.set_handler(0xDEADBEEF);
    assert_eq!(e.offset_low, 0xBEEF);
    assert_eq!(e.offset_high, 0xDEAD);
    assert_eq!(e.selector, 0x08);
    assert_eq!(e.type_attr, 0x8E);
    assert_eq!(e.zero, 0);
    let recombined = (e.offset_low as u32) | ((e.offset_high as u32) << 16);
    assert_eq!(recombined, 0xDEADBEEF);
}

#[test]
fn init_idt_points_every_vector_at_one_handler() {
    let handler: u32 = 0x0012_3456;
    let (table, descriptor) = init_idt(handler, 0x8000);
    assert_eq!(table.len(), IDT_ENTRIES);
    for e in &table {
        let target = (e.offset_low as u32) | ((e.offset_high as u32) << 16);
        assert_eq!(target, handler);
        assert_eq!(e.selector, 0x08);
        assert_eq!(e.type_attr, 0x8E);
        assert_eq!(e.zero, 0);
    }
    assert_eq!(descriptor.base, 0x8000);
    assert_eq!(descriptor.limit as usize, IDT_ENTRIES * IDT_ENTRY_BYTES - 1);
    assert_eq!(descriptor.limit, 2047);
}

#[test]
fn idt_descriptor_limit_is_table_size_minus_one() {
    let d = IdtDescriptor::new(0xCAFE_0000);
    assert_eq!(d.base, 0xCAFE_0000);
    assert_eq!(d.limit, 2047);
}

#[test]
fn exception_screen_shows_banner_whatever_was_on_screen() {
    let earlier = boot_screen();
    assert_ne!(screen_row(&earlier, 0).trim_end(), "EXCEPTION HANDLER CALLED!");
    let w = exception_screen();
    assert_eq!(screen_row(&w, 0).trim_end(), "EXCEPTION HANDLER CALLED!");
    assert_eq!(screen_row(&w, 1).trim_end(), "Halting system...");
    assert_eq!(w.color, 0x4F);
    for c in 0..VGA_WIDTH {
        assert_eq!(w.cell_at(0, c).attr, 0x4F);
    }
    assert_eq!(w.row, 2);
    assert_eq!(w.column, 0);
}

#[test]
fn panic_screen_renders_location_exactly() {
    let w = panic_screen(Some("core/init"));
    assert_eq!(screen_row(&w, 0).trim_end(), "KERNEL PANIC!");
    assert_eq!(screen_row(&w, 1).trim_end(), "");
    assert_eq!(screen_row(&w, 2).trim_end(), "Location: core/init");
    assert!(screen_row(&w, 2).contains("core/init"));
    assert_eq!(w.color, 0x4F);
    assert_eq!(w.row, 3);
    assert_eq!(w.column, 0);
}

#[test]
fn panic_screen_tolerates_missing_location() {
    let w = panic_screen(None);
    assert_eq!(screen_row(&w, 0).trim_end(), "KERNEL PANIC!");
    assert_eq!(screen_row(&w, 2).trim_end(), "");
    assert_eq!(w.row, 2);
    assert_eq!(w.column, 0);
}

#[test]
fn boot_screen_status_report() {
    let w = boot_screen();
    assert_eq!(w.color, 0x0A);
    assert_eq!(
        screen_row(&w, 0).trim_end(),
        "===================================="
    );
    assert_eq!(screen_row(&w, 1).trim_end(), "     Delta OS Kernel v0.1.0");
    assert_eq!(screen_row(&w, 3).trim_end(), "");
    assert_eq!(screen_row(&w, 4).trim_end(), "[OK] Kernel loaded successfully");
    assert_eq!(screen_row(&w, 5).trim_end(), "[OK] IDT initialized");
    assert_eq!(screen_row(&w, 8).trim_end(), "[OK] Kernel running in 32-bit mode");
    assert_eq!(screen_row(&w, 10).trim_end(), "System Information:");
    assert_eq!(screen_row(&w, 12).trim_end(), "  - Memory Model: Flat");
    assert_eq!(screen_row(&w, 15).trim_end(), "Kernel initialized. System halted.");
    assert_eq!(screen_row(&w, 17).trim_end(), "Delta OS - Built with Rust");
    assert_eq!(w.row, 18);
    assert_eq!(w.column, 0);
}

#[test]
fn boot_builds_table_before_painting_screen() {
    let handler: u32 = 0x0040_0000;
    let (table, descriptor, screen) = boot(handler, 0x0009_0000);
    assert_eq!(table.len(), 256);
    for e in &table {
        let target = (e.offset_low as u32) | ((e.offset_high as u32) << 16);
        assert_eq!(target, handler);
    }
    assert_eq!(descriptor.limit, 2047);
    assert_eq!(descriptor.base, 0x0009_0000);
    assert_eq!(screen_row(&screen, 1).trim_end(), "     Delta OS Kernel v0.1.0");
}
