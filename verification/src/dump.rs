//! Diagnostic rendering of a report: the hex and ASCII dumps the
//! application logs around a write.
//!
//! Rendering is pure and lives here so the send path can be exercised
//! without capturing console output; printing the rendered strings is the
//! application's business.

use vstd::prelude::*;

verus! {

/// The character the hex dump uses for one nibble value: `0`-`9` then
/// uppercase `A`-`F`.
pub open spec fn hex_digit_char(v: u8) -> char
    recommends
        v < 16,
{
    if v < 10 {
        (v + 48) as char
    } else {
        (v + 55) as char
    }
}

/// The three characters one byte contributes to the hex dump: its two hex
/// digits and a space.
pub open spec fn hex_byte_chars(b: u8) -> Seq<char> {
    seq![hex_digit_char((b / 16) as u8), hex_digit_char((b % 16) as u8), ' ']
}

/// The hex dump of a byte sequence: three characters per byte, with a line
/// break after every sixteenth byte.
pub open spec fn hex_dump_chars(bytes: Seq<u8>) -> Seq<char>
    decreases bytes.len(),
{
    if bytes.len() == 0 {
        Seq::empty()
    } else {
        hex_dump_chars(bytes.drop_last()) + hex_byte_chars(bytes.last()) + (
        if bytes.len() % 16 == 0 {
            seq!['\n']
        } else {
            Seq::<char>::empty()
        })
    }
}

/// The character the ASCII dump shows for one byte: the byte itself where
/// it is a visible ASCII character, a dot everywhere else.
pub open spec fn ascii_dump_char(b: u8) -> char {
    if 0x21 <= b && b <= 0x7e {
        b as char
    } else {
        '.'
    }
}

/// The ASCII dump of a byte sequence: one character per byte, with a line
/// break after every sixteenth byte.
pub open spec fn ascii_dump_chars(bytes: Seq<u8>) -> Seq<char>
    decreases bytes.len(),
{
    if bytes.len() == 0 {
        Seq::empty()
    } else {
        ascii_dump_chars(bytes.drop_last()).push(ascii_dump_char(bytes.last())) + (
        if bytes.len() % 16 == 0 {
            seq!['\n']
        } else {
            Seq::<char>::empty()
        })
    }
}

/// Relies on String::push: appends exactly the one character.
#[verifier::external_body]
fn push_char(s: &mut String, c: char)
    ensures
        final(s)@ == old(s)@.push(c),
{
    s.push(c);
}

/// The hex-dump character of one nibble value.
fn hex_char_of(v: u8) -> (c: char)
    requires
        v < 16,
    ensures
        c == hex_digit_char(v),
{
    if v < 10 {
        (v + 48) as char
    } else {
        (v + 55) as char
    }
}

/// Renders a byte buffer as the hex dump the controller logs: two
/// uppercase hex digits and a space per byte, sixteen bytes per line.
pub fn hex_dump(bytes: &Vec<u8>) -> (r: String)
    ensures
        r@ == hex_dump_chars(bytes@),
{
    let mut s = String::new();
    let mut i: usize = 0;
    while i < bytes.len()
        invariant
            i <= bytes@.len(),
            s@ == hex_dump_chars(bytes@.take(i as int)),
        decreases bytes@.len() - i,
    {
        let b = bytes[i];
        push_char(&mut s, hex_char_of(b / 16));
        push_char(&mut s, hex_char_of(b % 16));
        push_char(&mut s, ' ');
        if (i + 1) % 16 == 0 {
            push_char(&mut s, '\n');
        }
        proof {
            let t = bytes@.take(i + 1);
            assert(t.drop_last() =~= bytes@.take(i as int));
            assert(t.last() == bytes@[i as int]);
            assert(s@ =~= hex_dump_chars(t));
        }
        i += 1;
    }
    proof {
        assert(bytes@.take(bytes@.len() as int) =~= bytes@);
    }
    s
}

/// Renders a byte buffer as the ASCII dump the controller logs: visible
/// ASCII characters as themselves, a dot for every other byte, sixteen
/// bytes per line.
pub fn ascii_dump(bytes: &Vec<u8>) -> (r: String)
    ensures
        r@ == ascii_dump_chars(bytes@),
{
    let mut s = String::new();
    let mut i: usize = 0;
    while i < bytes.len()
        invariant
            i <= bytes@.len(),
            s@ == ascii_dump_chars(bytes@.take(i as int)),
        decreases bytes@.len() - i,
    {
        let b = bytes[i];
        if 0x21 <= b && b <= 0x7e {
            push_char(&mut s, b as char);
        } else {
            push_char(&mut s, '.');
        }
        if (i + 1) % 16 == 0 {
            push_char(&mut s, '\n');
        }
        proof {
            let t = bytes@.take(i + 1);
            assert(t.drop_last() =~= bytes@.take(i as int));
            assert(t.last() == bytes@[i as int]);
            assert(s@ =~= ascii_dump_chars(t));
        }
        i += 1;
    }
    proof {
        assert(bytes@.take(bytes@.len() as int) =~= bytes@);
    }
    s
}

/// The character the device listing uses for one nibble value: `0`-`9`
/// then lowercase `a`-`f`.
pub open spec fn hex_digit_char_lower(v: u8) -> char
    recommends
        v < 16,
{
    if v < 10 {
        (v + 48) as char
    } else {
        (v + 87) as char
    }
}

/// The four lowercase hex digits of a 16-bit identifier, most significant
/// first.
pub open spec fn hex4_chars(w: u16) -> Seq<char> {
    seq![
        hex_digit_char_lower((w / 4096) as u8),
        hex_digit_char_lower(((w / 256) % 16) as u8),
        hex_digit_char_lower(((w / 16) % 16) as u8),
        hex_digit_char_lower((w % 16) as u8),
    ]
}

/// The line the device listing shows for one enumerated device.
pub open spec fn device_line_chars(
    vid: u16,
    pid: u16,
    manufacturer: Seq<char>,
    product: Seq<char>,
    serial: Seq<char>,
) -> Seq<char> {
    "VID: "@ + hex4_chars(vid) + ", PID: "@ + hex4_chars(pid) + ", Manufacturer: "@
        + manufacturer + ", Product: "@ + product + ", Serial: "@ + serial
}

/// Appends the four lowercase hex digits of a 16-bit identifier.
fn append_hex4(s: &mut String, w: u16)
    ensures
        final (s)@ == old(s)@ + hex4_chars(w),
{
    let n0: u8 = (w / 4096) as u8;
    let n1: u8 = ((w / 256) % 16) as u8;
    let n2: u8 = ((w / 16) % 16) as u8;
    let n3: u8 = (w % 16) as u8;
    push_char(s, hex_char_lower_of(n0));
    push_char(s, hex_char_lower_of(n1));
    push_char(s, hex_char_lower_of(n2));
    push_char(s, hex_char_lower_of(n3));
    proof {
        assert(s@ =~= old(s)@ + hex4_chars(w));
    }
}

/// The lowercase hex-digit character of one nibble value.
fn hex_char_lower_of(v: u8) -> (c: char)
    requires
        v < 16,
    ensures
        c == hex_digit_char_lower(v),
{
    if v < 10 {
        (v + 48) as char
    } else {
        (v + 87) as char
    }
}

/// Renders the line the device listing shows for one enumerated device:
/// its identifiers in lowercase hex and its identifying strings.
pub fn device_line(
    vid: u16,
    pid: u16,
    manufacturer: &str,
    product: &str,
    serial: &str,
) -> (r: String)
    ensures
        r@ == device_line_chars(vid, pid, manufacturer@, product@, serial@),
{
    let mut s = String::new();
    s.append("VID: ");
    append_hex4(&mut s, vid);
    s.append(", PID: ");
    append_hex4(&mut s, pid);
    s.append(", Manufacturer: ");
    s.append(manufacturer);
    s.append(", Product: ");
    s.append(product);
    s.append(", Serial: ");
    s.append(serial);
    proof {
        assert(s@ =~= device_line_chars(vid, pid, manufacturer@, product@, serial@));
    }
    s
}

} // verus!
