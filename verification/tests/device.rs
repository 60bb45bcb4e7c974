use hidctl::discovery::{first_matching_device, DeviceId};
use hidctl::dump::{ascii_dump, device_line, hex_dump};
use hidctl::{PID, VID};

fn target() -> DeviceId {
    DeviceId { vendor_id: VID, product_id: PID }
}

fn other() -> DeviceId {
    DeviceId { vendor_id: 0x046D, product_id: 0xC534 }
}

#[test]
fn no_devices_no_match() {
    assert_eq!(first_matching_device(&vec![], 0), None);
}

#[test]
fn zero_matching_devices_fail() {
    let devices = vec![other(), other()];
    assert_eq!(first_matching_device(&devices, 0), None);
}

#[test]
fn first_match_wins() {
    let devices = vec![other(), target(), target()];
    assert_eq!(first_matching_device(&devices, 0), Some(1));
}

#[test]
fn scan_resumes_after_failed_open() {
    let devices = vec![other(), target(), other(), target()];
    assert_eq!(first_matching_device(&devices, 2), Some(3));
    assert_eq!(first_matching_device(&devices, 4), None);
}

#[test]
fn vendor_and_product_must_both_match() {
    let vendor_only = DeviceId { vendor_id: VID, product_id: 0x0001 };
    let product_only = DeviceId { vendor_id: 0x0001, product_id: PID };
    assert_eq!(first_matching_device(&vec![vendor_only, product_only], 0), None);
}

#[test]
fn hex_dump_renders_bytes() {
    assert_eq!(hex_dump(&vec![]), "");
    assert_eq!(hex_dump(&vec![0x00, 0xAB, 0x5C]), "00 AB 5C ");
}

#[test]
fn hex_dump_breaks_lines_every_sixteen_bytes() {
    let bytes = vec![0x11u8; 17];
    let d = hex_dump(&bytes);
    assert_eq!(d, format!("{}\n{}", "11 ".repeat(16), "11 "));
    assert_eq!(d.matches('\n').count(), 1);
}

#[test]
fn ascii_dump_shows_visible_characters() {
    assert_eq!(ascii_dump(&vec![0x41, 0x00, 0x7E, 0x20, 0x7F, 0x21]), "A.~..!");
}

#[test]
fn ascii_dump_breaks_lines_every_sixteen_bytes() {
    let bytes = vec![0x42u8; 18];
    let d = ascii_dump(&bytes);
    assert_eq!(d, format!("{}\n{}", "B".repeat(16), "BB"));
}

#[test]
fn device_line_renders_identifiers_in_hex() {
    let line = device_line(VID, PID, "Acme", "Widget", "0012");
    assert_eq!(line, "VID: 1915, PID: 520c, Manufacturer: Acme, Product: Widget, Serial: 0012");
}
