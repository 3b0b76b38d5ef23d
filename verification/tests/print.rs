use pxe_first_stage::print::{teletype_ax, Printer};

#[test]
fn line_feed_gets_carriage_return() {
    let mut printer = Printer;
    assert_eq!(printer.write_str("a\nb"), b"a\r\nb".to_vec());
}

#[test]
fn plain_text_goes_out_unchanged() {
    let mut printer = Printer;
    assert_eq!(printer.write_str("Closing connection"), b"Closing connection".to_vec());
    assert_eq!(printer.write_str(""), Vec::<u8>::new());
}

#[test]
fn carriage_return_is_kept() {
    let mut printer = Printer;
    assert_eq!(printer.write_str("\rRead 5 bytes\n"), b"\rRead 5 bytes\r\n".to_vec());
}

#[test]
fn non_ascii_characters_go_out_as_low_byte() {
    let mut printer = Printer;
    // U+00E9 and U+010A: one byte each, the low byte of the code point.
    assert_eq!(printer.write_str("\u{e9}\u{10a}"), vec![0xe9, 0x0a]);
}

#[test]
fn teletype_function_in_ah() {
    assert_eq!(teletype_ax(b'A'), 0x0e41);
    assert_eq!(teletype_ax(0), 0x0e00);
    assert_eq!(teletype_ax(0xff), 0x0eff);
}
