use kernel_core::arch::cpuio::{PortWidth, PortWrite};
use kernel_core::arch::descriptor_tables::DescriptorTablePointer;
use kernel_core::arch::interrupts::{
    ConsoleOutput, Idt, IdtEntry, InitStep, InterruptClass, InterruptStackContext,
    PageFaultDetail, Peripheral, classify, cpu_interrupt_handler, init, rust_interrupt_handler,
};
use kernel_core::arch::irq::PageFaultException;
use kernel_core::arch::keyboard::KeyboardState;
use kernel_core::arch::pic::ChainedPics;

fn byte(port: u16, data: u8) -> PortWrite {
    PortWrite { port, width: PortWidth::Byte, data: data as u32 }
}

fn context(interrupt_id: u32, error_code: u32) -> InterruptStackContext {
    InterruptStackContext {
        rsi: 1,
        rdi: 2,
        r11: 3,
        r10: 4,
        r9: 5,
        r8: 6,
        rdx: 7,
        rcx: 8,
        rax: 9,
        interrupt_id,
        error_code,
    }
}

#[test]
fn missing_handler_is_all_zero() {
    let entry = IdtEntry::missing_handler();
    assert_eq!(
        entry,
        IdtEntry {
            offset_low: 0,
            segment_selector: 0,
            reserved_0: 0,
            flags: 0,
            offset_high: 0,
            reserved_1: 0
        }
    );
    assert_eq!(entry.to_bytes(), [0u8; 16]);
}

#[test]
fn new_entry_splits_the_handler_address() {
    let entry = IdtEntry::new(0x08, 0xFFFF_8000_0012_3456);
    assert_eq!(entry.offset_low, 0x3456);
    assert_eq!(entry.offset_high, 0xFFFF_8000_0012);
    assert_eq!(entry.segment_selector, 0x08);
    assert_eq!(entry.flags, 0b1000_1110);
    assert_eq!(entry.reserved_0, 0);
    assert_eq!(entry.reserved_1, 0);
}

#[test]
fn new_entry_is_present_and_gives_the_address_back() {
    for handler in [1u64, 0xFFFF, 0x1_0000, 0x0010_0F00, 0xDEAD_BEEF_CAFE_F00D, u64::MAX] {
        let entry = IdtEntry::new(0x10, handler);
        assert_eq!(entry.flags & 0x80, 0x80);
        assert_eq!(entry.offset_low as u64 | (entry.offset_high << 16), handler);
    }
}

#[test]
fn entry_bytes_have_the_hardware_layout() {
    let entry = IdtEntry::new(0x0008, 0x1122_3344_5566_7788);
    assert_eq!(
        entry.to_bytes(),
        [
            0x88, 0x77, // offset 0..16
            0x08, 0x00, // selector
            0x00, // reserved
            0x8E, // flags
            0x66, 0x55, // offset 16..32
            0x44, 0x33, 0x22, 0x11, // offset 32..64
            0x00, 0x00, 0x00, 0x00, // reserved
        ]
    );
}

#[test]
fn new_table_has_no_handlers() {
    let idt = Idt::new();
    for vector in 0..=255u8 {
        assert_eq!(idt.entry(vector), IdtEntry::missing_handler());
    }
}

#[test]
fn add_handlers_fills_the_vectors_that_have_one() {
    let mut handlers = [0u64; 256];
    handlers[0] = 0x10_0000;
    handlers[14] = 0x10_00E0;
    handlers[0x21] = 0x10_0210;
    handlers[255] = 0xFFFF_FFFF_8000_0FF0;
    let mut idt = Idt::new();
    idt.add_handlers(0x08, &handlers);
    for vector in 0..=255u8 {
        let handler = handlers[vector as usize];
        if handler == 0 {
            assert_eq!(idt.entry(vector).to_bytes(), [0u8; 16]);
        } else {
            assert_eq!(idt.entry(vector), IdtEntry::new(0x08, handler));
        }
    }
}

#[test]
fn add_handlers_keeps_entries_of_vectors_without_handler() {
    let mut first = [0u64; 256];
    first[3] = 0x1234_5678;
    let mut second = [0u64; 256];
    second[4] = 0x8765_4321;
    let mut idt = Idt::new();
    idt.add_handlers(0x08, &first);
    idt.add_handlers(0x18, &second);
    assert_eq!(idt.entry(3), IdtEntry::new(0x08, 0x1234_5678));
    assert_eq!(idt.entry(4), IdtEntry::new(0x18, 0x8765_4321));
    assert_eq!(idt.entry(5), IdtEntry::missing_handler());
}

#[test]
fn load_points_to_the_whole_table() {
    let idt = Idt::new();
    assert_eq!(idt.load(0x10_8000), DescriptorTablePointer { limit: 16 * 256 - 1, base: 0x10_8000 });
}

#[test]
fn table_pointer_bytes_are_packed() {
    let pointer = DescriptorTablePointer { limit: 0x0FFF, base: 0x0102_0304_0506_0708 };
    assert_eq!(pointer.to_bytes(), [0xFF, 0x0F, 0x08, 0x07, 0x06, 0x05, 0x04, 0x03, 0x02, 0x01]);
}

#[test]
fn idt_init_fills_and_points() {
    let mut handlers = [0u64; 256];
    handlers[0x80] = 0x40_0000;
    let mut idt = Idt::new();
    let pointer = idt.init(0x08, &handlers, 0x7000);
    assert_eq!(pointer, DescriptorTablePointer { limit: 4095, base: 0x7000 });
    assert_eq!(idt.entry(0x80), IdtEntry::new(0x08, 0x40_0000));
    assert_eq!(idt.entry(0x7F), IdtEntry::missing_handler());
}

#[test]
fn init_sets_up_controllers_then_table_then_enables() {
    let pics = ChainedPics::new(0x20, 0x28);
    let mut handlers = [0u64; 256];
    handlers[0x21] = 0x10_0210;
    let mut idt = Idt::new();
    let steps = init(&pics, 0xFD, 0xFF, &mut idt, 0x08, &handlers, 0x9000);
    let mut expected: Vec<InitStep> =
        pics.init(0xFD, 0xFF).into_iter().map(InitStep::Write).collect();
    assert_eq!(expected.len(), 18);
    expected.push(InitStep::StoreTable);
    expected.push(InitStep::LoadTable(DescriptorTablePointer { limit: 4095, base: 0x9000 }));
    expected.push(InitStep::TestInterrupt);
    expected.push(InitStep::EnableInterrupts);
    assert_eq!(steps, expected);
    assert_eq!(idt.entry(0x21), IdtEntry::new(0x08, 0x10_0210));
    assert_eq!(idt.entry(0x20), IdtEntry::missing_handler());
}

#[test]
fn vectors_are_classified() {
    for vector in 0..0x20u32 {
        assert_eq!(classify(vector), InterruptClass::CpuException);
    }
    let devices = [
        Peripheral::Timer,
        Peripheral::Keyboard,
        Peripheral::Cascade,
        Peripheral::Com2,
        Peripheral::Com1,
        Peripheral::Lpt2,
        Peripheral::FloppyDisk,
        Peripheral::Lpt1,
        Peripheral::RealTimeClock,
        Peripheral::Free9,
        Peripheral::Free10,
        Peripheral::Free11,
        Peripheral::Mouse,
        Peripheral::Coprocessor,
        Peripheral::PrimaryAta,
        Peripheral::SecondaryAta,
    ];
    for (line, device) in devices.iter().enumerate() {
        assert_eq!(classify(0x20 + line as u32), InterruptClass::Hardware(*device));
        assert_eq!(Peripheral::from_line(line as u32), *device);
    }
    assert_eq!(classify(0x80), InterruptClass::Software);
    for vector in [0x30u32, 0x7F, 0x81, 0xFF, 0x100, u32::MAX] {
        assert_eq!(classify(vector), InterruptClass::Unknown);
    }
}

#[test]
fn keyboard_interrupt_without_character_prints_nothing_and_acknowledges_master() {
    let pics = ChainedPics::new(0x20, 0x28);
    let mut keyboard = KeyboardState::new();
    // The break code of the `a` key types nothing.
    let dispatch = rust_interrupt_handler(&context(0x21, 0), &pics, &mut keyboard, Some(0x9E));
    assert!(matches!(dispatch.output, ConsoleOutput::Nothing));
    assert!(!dispatch.halt);
    assert_eq!(dispatch.acknowledgments, vec![byte(0x20, 0x20)]);

    let dispatch = rust_interrupt_handler(&context(0x21, 0), &pics, &mut keyboard, None);
    assert!(matches!(dispatch.output, ConsoleOutput::Nothing));
    assert!(!dispatch.halt);
    assert_eq!(dispatch.acknowledgments, vec![byte(0x20, 0x20)]);
}

#[test]
fn keyboard_interrupt_prints_the_typed_character() {
    let pics = ChainedPics::new(0x20, 0x28);
    let mut keyboard = KeyboardState::new();
    let dispatch = rust_interrupt_handler(&context(0x21, 0), &pics, &mut keyboard, Some(0x23));
    assert!(matches!(dispatch.output, ConsoleOutput::Character(b'h')));
    assert_eq!(dispatch.acknowledgments, vec![byte(0x20, 0x20)]);
    assert!(!dispatch.halt);
}

#[test]
fn keyboard_interrupt_follows_the_shift_key() {
    let pics = ChainedPics::new(0x20, 0x28);
    let mut keyboard = KeyboardState::new();
    let dispatch = rust_interrupt_handler(&context(0x21, 0), &pics, &mut keyboard, Some(0x2A));
    assert!(matches!(dispatch.output, ConsoleOutput::Nothing));
    let dispatch = rust_interrupt_handler(&context(0x21, 0), &pics, &mut keyboard, Some(0x23));
    assert!(matches!(dispatch.output, ConsoleOutput::Character(b'H')));
}

#[test]
fn enter_key_breaks_the_line() {
    let pics = ChainedPics::new(0x20, 0x28);
    let mut keyboard = KeyboardState::new();
    let dispatch = rust_interrupt_handler(&context(0x21, 0), &pics, &mut keyboard, Some(0x1C));
    assert!(matches!(dispatch.output, ConsoleOutput::LineBreak));
    assert_eq!(dispatch.acknowledgments, vec![byte(0x20, 0x20)]);
}

#[test]
fn scancode_is_ignored_on_other_vectors() {
    let pics = ChainedPics::new(0x20, 0x28);
    let mut keyboard = KeyboardState::new();
    // A shift make code that arrives with the timer interrupt changes nothing.
    let dispatch = rust_interrupt_handler(&context(0x20, 0), &pics, &mut keyboard, Some(0x2A));
    assert!(matches!(dispatch.output, ConsoleOutput::Nothing));
    assert_eq!(keyboard.get_char(0x1E), Some('a'));
}

#[test]
fn other_devices_are_only_acknowledged() {
    let pics = ChainedPics::new(0x20, 0x28);
    let mut keyboard = KeyboardState::new();
    for vector in (0x20..0x30u32).filter(|vector| *vector != 0x21) {
        let dispatch = rust_interrupt_handler(&context(vector, 0), &pics, &mut keyboard, None);
        assert!(matches!(dispatch.output, ConsoleOutput::Nothing));
        assert!(!dispatch.halt);
        if vector < 0x28 {
            assert_eq!(dispatch.acknowledgments, vec![byte(0x20, 0x20)]);
        } else {
            assert_eq!(dispatch.acknowledgments, vec![byte(0xA0, 0x20), byte(0x20, 0x20)]);
        }
    }
}

#[test]
fn page_fault_on_write_to_absent_page_is_reported_and_halts() {
    let pics = ChainedPics::new(0x20, 0x28);
    let mut keyboard = KeyboardState::new();
    let dispatch = rust_interrupt_handler(&context(14, 0b00010), &pics, &mut keyboard, None);
    assert!(dispatch.halt);
    assert_eq!(dispatch.acknowledgments, vec![]);
    match dispatch.output {
        ConsoleOutput::Exception(report) => {
            assert_eq!(report.interrupt_id, 14);
            assert_eq!(report.error_code, 0b00010);
            assert_eq!(report.info.unwrap().mnemonic, "#PF");
            assert_eq!(report.info.unwrap().description, "Page fault");
            match report.page_fault {
                PageFaultDetail::Flags(flags) => {
                    assert_eq!(flags, PageFaultException { bits: 2 });
                    let sentences = flags.describe();
                    assert_eq!(sentences[0], "The fault was caused by a non-present page.");
                    assert_eq!(sentences[1], "The access causing the fault was a write.");
                },
                other => panic!("{:?}", other),
            }
        },
        other => panic!("{:?}", other),
    }
}

#[test]
fn page_fault_with_unknown_bits_is_undecodable() {
    let report = cpu_interrupt_handler(&context(14, 0x20));
    assert_eq!(report.page_fault, PageFaultDetail::Undecodable);
    assert_eq!(report.error_code, 0x20);
}

#[test]
fn other_exceptions_carry_no_page_fault_detail() {
    let report = cpu_interrupt_handler(&context(13, 0b00010));
    assert_eq!(report.page_fault, PageFaultDetail::NotAPageFault);
    assert_eq!(report.info.unwrap().mnemonic, "#GP");
    assert_eq!(report.error_code, 2);
    assert_eq!(report.interrupt_id, 13);
}

#[test]
fn reserved_exceptions_have_no_description() {
    let pics = ChainedPics::new(0x20, 0x28);
    let mut keyboard = KeyboardState::new();
    for vector in 20..32u32 {
        let dispatch = rust_interrupt_handler(&context(vector, 7), &pics, &mut keyboard, None);
        assert!(dispatch.halt);
        assert_eq!(dispatch.acknowledgments, vec![]);
        match dispatch.output {
            ConsoleOutput::Exception(report) => {
                assert!(report.info.is_none());
                assert_eq!(report.interrupt_id, vector);
                assert_eq!(report.error_code, 7);
            },
            other => panic!("{:?}", other),
        }
    }
}

#[test]
fn every_exception_halts_without_acknowledgment() {
    let pics = ChainedPics::new(0x20, 0x28);
    let mut keyboard = KeyboardState::new();
    for vector in 0..32u32 {
        let dispatch = rust_interrupt_handler(&context(vector, 0), &pics, &mut keyboard, None);
        assert!(dispatch.halt);
        assert!(dispatch.acknowledgments.is_empty());
        assert!(matches!(dispatch.output, ConsoleOutput::Exception(_)));
    }
}

#[test]
fn software_interrupt_answers_and_returns() {
    let pics = ChainedPics::new(0x20, 0x28);
    let mut keyboard = KeyboardState::new();
    let dispatch = rust_interrupt_handler(&context(0x80, 0), &pics, &mut keyboard, None);
    assert!(matches!(dispatch.output, ConsoleOutput::NotUnix));
    assert!(!dispatch.halt);
    assert_eq!(dispatch.acknowledgments, vec![]);
}

#[test]
fn unknown_interrupt_is_reported_and_halts() {
    let pics = ChainedPics::new(0x20, 0x28);
    let mut keyboard = KeyboardState::new();
    for vector in [0x30u32, 0x7F, 0x81, 0xFF, 0x121, u32::MAX] {
        let dispatch = rust_interrupt_handler(&context(vector, 0), &pics, &mut keyboard, None);
        assert!(dispatch.halt);
        assert_eq!(dispatch.acknowledgments, vec![]);
        match dispatch.output {
            ConsoleOutput::UnknownInterrupt(reported) => assert_eq!(reported, vector),
            other => panic!("{:?}", other),
        }
    }
}

#[test]
fn context_is_read_off_the_stack() {
    let mut bytes = [0u8; 88];
    for (index, byte) in bytes.iter_mut().enumerate() {
        *byte = index as u8;
    }
    let context = InterruptStackContext::from_bytes(&bytes);
    assert_eq!(context.rsi, 0x0706_0504_0302_0100);
    assert_eq!(context.rdi, 0x0F0E_0D0C_0B0A_0908);
    assert_eq!(context.r11, 0x1716_1514_1312_1110);
    assert_eq!(context.r10, 0x1F1E_1D1C_1B1A_1918);
    assert_eq!(context.r9, 0x2726_2524_2322_2120);
    assert_eq!(context.r8, 0x2F2E_2D2C_2B2A_2928);
    assert_eq!(context.rdx, 0x3736_3534_3332_3130);
    assert_eq!(context.rcx, 0x3F3E_3D3C_3B3A_3938);
    assert_eq!(context.rax, 0x4746_4544_4342_4140);
    assert_eq!(context.interrupt_id, 0x4B4A_4948);
    assert_eq!(context.error_code, 0x5352_5150);
}

#[test]
fn context_of_a_page_fault() {
    let mut bytes = [0u8; 88];
    bytes[72] = 14;
    bytes[76] = 0xFF;
    bytes[80] = 0b00010;
    bytes[84] = 0xFF;
    let context = InterruptStackContext::from_bytes(&bytes);
    assert_eq!(context.interrupt_id, 14);
    assert_eq!(context.error_code, 2);
    assert_eq!(context.rax, 0);
}
