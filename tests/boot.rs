use os::{
    clear_bss, rust_main, AddressRange, BootStage, Console, FailureRecord, Level, Location,
    Machine, Memory, MemoryLayout,
};

fn range(start: usize, end: usize) -> AddressRange {
    AddressRange { start, end }
}

fn filled(base: usize, len: usize, value: u8) -> Memory {
    Memory { base, bytes: vec![value; len] }
}

fn example_layout() -> MemoryLayout {
    MemoryLayout {
        text: range(0x1000, 0x2000),
        rodata: range(0x2000, 0x2800),
        data: range(0x2800, 0x3000),
        bss: range(0x3000, 0x4000),
        stack: range(0x5000, 0x6000),
    }
}

fn info(payload: &str) -> String {
    format!("\x1b[34m[INFO] {}\x1b[0m\n", payload)
}

fn error(payload: &str) -> String {
    format!("\x1b[31m[ERROR] {}\x1b[0m\n", payload)
}

#[test]
fn clear_bss_zeroes_every_byte_of_the_range() {
    let mut mem = filled(0x3000, 0x1000, 0xaa);
    let writes = clear_bss(&mut mem, range(0x3000, 0x4000));
    assert_eq!(writes, 0x1000);
    for a in 0x3000..0x4000usize {
        assert_eq!(mem.read(a), 0);
    }
}

#[test]
fn clear_bss_leaves_bytes_outside_the_range() {
    let mut mem = filled(0x100, 0x40, 0x5c);
    let writes = clear_bss(&mut mem, range(0x110, 0x120));
    assert_eq!(writes, 0x10);
    for a in 0x100..0x140usize {
        let expected = if (0x110..0x120).contains(&a) { 0 } else { 0x5c };
        assert_eq!(mem.read(a), expected);
    }
}

#[test]
fn clear_bss_on_an_empty_range_writes_nothing() {
    let mut mem = filled(0x100, 0x10, 7);
    let writes = clear_bss(&mut mem, range(0x108, 0x108));
    assert_eq!(writes, 0);
    assert_eq!(mem.bytes, vec![7u8; 0x10]);
}

#[test]
fn clear_bss_up_to_the_end_of_the_window() {
    let mut mem = filled(0x200, 4, 1);
    assert_eq!(clear_bss(&mut mem, range(0x201, 0x204)), 3);
    assert_eq!(mem.bytes, vec![1, 0, 0, 0]);
}

#[test]
fn write_str_hello_world() {
    let mut c = Console::new();
    c.write_str("Hello, world!\n");
    assert_eq!(c.bytes(), b"Hello, world!\n");
}

#[test]
fn write_str_adds_no_newline_and_keeps_utf8() {
    let mut c = Console::new();
    c.write_str("ab");
    c.write_str("é");
    assert_eq!(c.bytes(), &[b'a', b'b', 0xc3, 0xa9]);
}

#[test]
fn take_hands_out_and_empties() {
    let mut c = Console::new();
    c.put_byte(b'z');
    c.write_bytes(b"yx");
    assert_eq!(c.take(), b"zyx".to_vec());
    assert!(c.bytes().is_empty());
}

#[test]
fn hex_rendering() {
    let mut c = Console::new();
    c.write_hex(0);
    c.write_str(" ");
    c.write_hex(0x2800);
    c.write_str(" ");
    c.write_hex(0xdeadbeef);
    c.write_str(" ");
    c.write_hex(usize::MAX);
    let expected = format!("0x0 0x2800 0xdeadbeef {:#x}", usize::MAX);
    assert_eq!(c.bytes(), expected.as_bytes());
}

#[test]
fn decimal_rendering() {
    let mut c = Console::new();
    c.write_dec(0);
    c.write_str(" ");
    c.write_dec(42);
    c.write_str(" ");
    c.write_dec(u32::MAX);
    assert_eq!(c.bytes(), b"0 42 4294967295");
}

#[test]
fn log_lines_of_each_level() {
    let mut c = Console::new();
    c.log(Level::Error, b"e");
    c.log(Level::Warn, b"w");
    c.log(Level::Info, b"i");
    c.log(Level::Debug, b"d");
    let expected = "\x1b[31m[ERROR] e\x1b[0m\n\x1b[93m[WARN] w\x1b[0m\n\
                    \x1b[34m[INFO] i\x1b[0m\n\x1b[32m[DEBUG] d\x1b[0m\n";
    assert_eq!(c.bytes(), expected.as_bytes());
}

#[test]
fn failure_without_location_then_silence() {
    let mut m = Machine::new(filled(0, 4, 0));
    m.handle_failure(&FailureRecord::with_message("Shutdown machine!"));
    assert_eq!(m.stage(), BootStage::Halted);
    let after_failure = m.console().bytes().to_vec();
    assert_eq!(after_failure, error("Panicked: Shutdown machine!").into_bytes());
    m.log(Level::Info, b"later");
    m.handle_failure(&FailureRecord::with_message("again"));
    assert_eq!(m.console().bytes(), &after_failure[..]);
    assert_eq!(m.stage(), BootStage::Halted);
}

#[test]
fn failure_with_location() {
    let mut m = Machine::new(filled(0, 4, 0));
    let rec = FailureRecord {
        message: Some("x".to_string()),
        location: Some(Location { file: "boot.rs".to_string(), line: 42, column: 5 }),
    };
    m.handle_failure(&rec);
    assert_eq!(m.console().bytes(), error("Panicked at boot.rs:42 x").as_bytes());
}

#[test]
fn failure_without_message() {
    let mut m = Machine::new(filled(0, 4, 0));
    let rec = FailureRecord { message: None, location: None };
    m.handle_failure(&rec);
    assert_eq!(m.console().bytes(), error("Panicked: no message").as_bytes());
}

#[test]
fn log_before_halt_is_written() {
    let mut m = Machine::new(filled(0, 4, 0));
    m.log(Level::Warn, b"careful");
    assert_eq!(m.console().bytes(), b"\x1b[93m[WARN] careful\x1b[0m\n");
    assert_eq!(m.stage(), BootStage::Entered);
}

#[test]
fn stages_in_order() {
    let layout = example_layout();
    let mut m = Machine::new(filled(0x3000, 0x1000, 9));
    assert_eq!(m.stage(), BootStage::Entered);
    assert_eq!(m.clear_memory(&layout), 0x1000);
    assert_eq!(m.stage(), BootStage::MemoryClear);
    assert!(m.console().bytes().is_empty());
    m.report_layout(&layout);
    assert_eq!(m.stage(), BootStage::Reporting);
}

#[test]
fn boot_scenario() {
    let layout = example_layout();
    let mut m = Machine::new(filled(0x2f00, 0x1200, 0xaa));
    rust_main(&mut m, &layout);
    let expected = [
        info(".text [0x1000, 0x2000)"),
        info(".rodata [0x2000, 0x2800)"),
        info(".data [0x2800, 0x3000)"),
        info("boot_stack [0x5000, 0x6000)"),
        info(".bss [0x3000, 0x4000)"),
        error("Panicked: Shutdown machine!"),
    ]
    .concat();
    assert_eq!(m.console().bytes(), expected.as_bytes());
    assert_eq!(m.stage(), BootStage::Halted);
    for a in 0x2f00..0x4100usize {
        let want = if (0x3000..0x4000).contains(&a) { 0 } else { 0xaa };
        assert_eq!(m.memory().read(a), want);
    }
}
