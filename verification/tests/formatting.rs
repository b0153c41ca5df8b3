use ufbx::{
    Error, ErrorFrame, ErrorType, Panic, PropFlags, TopoFlags, fatal_from_panic, format_error,
    format_flags, u32_to_text,
};

#[test]
fn decimal_rendering_is_exact() {
    assert_eq!(u32_to_text(0), "0");
    assert_eq!(u32_to_text(7), "7");
    assert_eq!(u32_to_text(10), "10");
    assert_eq!(u32_to_text(90210), "90210");
    assert_eq!(u32_to_text(u32::MAX), "4294967295");
}

#[test]
fn format_error_renders_description_only() {
    let error = Error::new(
        ErrorType::TruncatedFile,
        String::from("Truncated file"),
        String::new(),
    );
    assert_eq!(format_error(&error), "error: Truncated file");
}

#[test]
fn format_error_renders_stack_and_info() {
    let mut error = Error::new(
        ErrorType::Io,
        String::from("IO error"),
        String::from("while reading header"),
    );
    error.push_frame(ErrorFrame {
        source_line: 42,
        function: String::from("read_header"),
        description: String::from("short read"),
    });
    error.push_frame(ErrorFrame {
        source_line: 7,
        function: String::from("load"),
        description: String::from("called from"),
    });
    assert_eq!(
        format_error(&error),
        "error: IO error\n  read_header:42: short read\n  load:7: called from\n  info: while reading header"
    );
}

#[test]
fn error_stack_is_bounded() {
    let mut error = Error::default();
    for i in 0..20u32 {
        error.push_frame(ErrorFrame {
            source_line: i,
            function: String::from("f"),
            description: String::new(),
        });
    }
    assert_eq!(error.stack_size, 8);
    assert_eq!(error.stack.len(), 8);
}

#[test]
fn error_info_is_truncated_to_its_bound() {
    let long = "x".repeat(1000);
    let error = Error::new(ErrorType::Unknown, String::new(), long);
    assert_eq!(error.info_str().len(), 256);
}

#[test]
fn panic_message_is_truncated_to_its_bound() {
    let mut panic = Panic::default();
    panic.set("y".repeat(500));
    assert!(panic.did_panic);
    assert_eq!(panic.message_str().len(), 128);
}

#[test]
fn fatal_from_panic_names_operation_and_message() {
    let mut panic = Panic::default();
    panic.set(String::from("bad index"));
    let fatal = fatal_from_panic("probe()", &panic);
    assert_eq!(fatal.message, "probe() bad index");
}

#[test]
fn format_flags_joins_set_names() {
    let names: [(&str, u32); 3] = [("A", 0x1), ("B", 0x2), ("C", 0x4)];
    assert_eq!(format_flags(&names, 0x5), "A|C");
    assert_eq!(format_flags(&names, 0x2), "B");
    assert_eq!(format_flags(&names, 0x0), "NONE");
    assert_eq!(format_flags(&names, 0x8), "NONE");
}

#[test]
fn flag_queries_follow_bit_arithmetic() {
    let flags = PropFlags(0x5);
    assert!(flags.any());
    assert!(flags.has_any(PropFlags(0x4)));
    assert!(flags.has_all(PropFlags(0x5)));
    assert!(!flags.has_all(PropFlags(0x7)));
    assert!(!PropFlags(0).any());
    assert!(TopoFlags::default().0 == 0);
}
