use mtef::cursor::Cursor;
use mtef::error::{Error, Site};
use mtef::node::Nudge;
use mtef::options::RecordOptions;
use mtef::primitives::{
    read_dimension_arrays, read_length, read_nudge_values, read_optional_nudge, read_variation,
};
use mtef::record::{read_prefs, read_styles};
use mtef::text::{decode_text, read_null_terminated_string, text_or_error, TextEncoding};

const PREFS: Site = Site::Record(18);

#[test]
fn cursor_reads_advance_or_fail_in_place() {
    let bytes = [0x78, 0x34, 0x12, 0x78, 0x56, 0x34, 0x12];
    let mut cur = Cursor::new(&bytes);
    assert_eq!(cur.remaining(), 7);
    assert_eq!(cur.read_u8(Site::Header), Ok(0x78));
    assert_eq!(cur.read_u16_le(Site::Header), Ok(0x1234));
    assert_eq!(cur.read_u32_le(Site::Header), Ok(0x12345678));
    assert_eq!(cur.position(), 7);
    assert_eq!(cur.remaining(), 0);
    let at_end = Err(Error::MalformedBuffer { site: Site::Header, offset: 7 });
    assert_eq!(cur.read_u8(Site::Header), at_end);
    assert_eq!(cur.position(), 7);
    let mut cur = Cursor::new(&bytes[..3]);
    let at_start = Error::MalformedBuffer { site: Site::ObjectList, offset: 0 };
    assert_eq!(cur.read_u32_le(Site::ObjectList), Err(at_start));
    assert_eq!(cur.read_bytes(4, Site::ObjectList), Err(at_start));
    assert_eq!(cur.position(), 0);
    assert_eq!(cur.read_bytes(3, Site::ObjectList), Ok(vec![0x78, 0x34, 0x12]));
    assert_eq!(cur.read_bytes(0, Site::ObjectList), Ok(vec![]));
    assert_eq!(cur.read_u16_le(Site::ObjectList).is_err(), true);
}

#[test]
fn cursor_reads_up_to_the_zero_byte() {
    let mut cur = Cursor::new(b"ab\0\0cd");
    assert_eq!(cur.read_until_nul(Site::Header), Ok(b"ab".to_vec()));
    assert_eq!(cur.position(), 3);
    assert_eq!(cur.read_until_nul(Site::Header), Ok(vec![]));
    assert_eq!(cur.position(), 4);
    assert_eq!(
        cur.read_until_nul(Site::Header),
        Err(Error::MalformedBuffer { site: Site::Header, offset: 4 })
    );
    assert_eq!(cur.position(), 4);
}

#[test]
fn each_flag_has_its_bit() {
    let flags: [(u8, fn(RecordOptions) -> bool); 9] = [
        (0x08, RecordOptions::nudge),
        (0x01, RecordOptions::char_embell),
        (0x02, RecordOptions::char_func_start),
        (0x04, RecordOptions::char_enc_char_8),
        (0x10, RecordOptions::char_enc_char_16),
        (0x20, RecordOptions::char_enc_no_mtcode),
        (0x01, RecordOptions::line_null),
        (0x04, RecordOptions::line_lspace),
        (0x02, RecordOptions::lp_ruler),
    ];
    for (bit, flag) in flags {
        assert!(flag(RecordOptions::new(bit)));
        assert!(flag(RecordOptions::new(0xff)));
        assert!(!flag(RecordOptions::new(!bit)));
        assert!(!flag(RecordOptions::new(0)));
    }
}

#[test]
fn narrow_nudge_takes_two_bytes() {
    let mut cur = Cursor::new(&[0x7f, 0x81, 0x80]);
    assert_eq!(read_nudge_values(&mut cur, PREFS), Ok(Nudge { dx: 0x7f, dy: 0x81 }));
    assert_eq!(cur.position(), 2);
}

#[test]
fn sentinel_on_either_coordinate_takes_four_bytes() {
    let mut cur = Cursor::new(&[0x80, 0x01, 0x05, 0x00, 0xff]);
    assert_eq!(read_nudge_values(&mut cur, PREFS), Ok(Nudge { dx: 0x0180, dy: 0x0005 }));
    assert_eq!(cur.position(), 4);
    let mut cur = Cursor::new(&[0x01, 0x80, 0x34, 0x12]);
    assert_eq!(read_nudge_values(&mut cur, PREFS), Ok(Nudge { dx: 0x8001, dy: 0x1234 }));
    assert_eq!(cur.position(), 4);
}

#[test]
fn truncated_nudge_leaves_the_cursor() {
    let mut cur = Cursor::new(&[0x10]);
    assert_eq!(
        read_nudge_values(&mut cur, PREFS),
        Err(Error::MalformedBuffer { site: PREFS, offset: 1 })
    );
    assert_eq!(cur.position(), 0);
    let mut cur = Cursor::new(&[0x80, 0x10, 0x20]);
    assert_eq!(
        read_nudge_values(&mut cur, PREFS),
        Err(Error::MalformedBuffer { site: PREFS, offset: 2 })
    );
    assert_eq!(cur.position(), 0);
}

#[test]
fn optional_nudge_follows_the_option_bit() {
    let mut cur = Cursor::new(&[0x10, 0x20]);
    assert_eq!(read_optional_nudge(&mut cur, RecordOptions::new(0x37), PREFS), Ok(None));
    assert_eq!(cur.position(), 0);
    assert_eq!(read_optional_nudge(&mut cur, RecordOptions::new(0x08), PREFS), Ok(Some(Nudge { dx: 0x10, dy: 0x20 })));
    assert_eq!(cur.position(), 2);
}

#[test]
fn variation_in_one_or_two_bytes() {
    let mut cur = Cursor::new(&[0x02, 0x7f, 0x80, 0x00, 0xff, 0xff, 0x81]);
    assert_eq!(read_variation(&mut cur, PREFS), Ok(2));
    assert_eq!(read_variation(&mut cur, PREFS), Ok(0x7f));
    assert_eq!(read_variation(&mut cur, PREFS), Ok(0));
    assert_eq!(read_variation(&mut cur, PREFS), Ok(0xff7f));
    assert_eq!(cur.position(), 6);
    assert_eq!(
        read_variation(&mut cur, PREFS),
        Err(Error::MalformedBuffer { site: PREFS, offset: 7 })
    );
    assert_eq!(cur.position(), 6);
}

#[test]
fn length_in_one_or_three_bytes() {
    let mut cur = Cursor::new(&[0x00, 0xfe, 0xff, 0x34, 0x12, 0xff, 0x01]);
    assert_eq!(read_length(&mut cur, PREFS), Ok(0));
    assert_eq!(read_length(&mut cur, PREFS), Ok(254));
    assert_eq!(read_length(&mut cur, PREFS), Ok(0x1234));
    assert_eq!(cur.position(), 5);
    assert_eq!(read_length(&mut cur, PREFS), Err(Error::MalformedBuffer { site: PREFS, offset: 6 }));
    assert_eq!(cur.position(), 5);
}

#[test]
fn dimensions_come_out_as_unit_then_number() {
    // pt 1 2 END | in 0 . 5 END | % - 1 0 END, and one nibble of padding
    let bytes = [0x21, 0x2f, 0x00, 0xa5, 0xf4, 0xb1, 0x0f, 0x00, 0x77];
    let mut cur = Cursor::new(&bytes);
    assert_eq!(
        read_dimension_arrays(&mut cur, 3),
        Ok(vec!["pt12".to_string(), "in0.5".to_string(), "%-10".to_string()])
    );
    assert_eq!(cur.position(), 7);
}

#[test]
fn every_unit_and_every_digit() {
    let bytes = [0x00, 0x12, 0x34, 0x56, 0x78, 0x9a, 0xbf, 0x1f, 0x2f, 0x3f, 0x4f];
    let mut cur = Cursor::new(&bytes);
    assert_eq!(
        read_dimension_arrays(&mut cur, 5),
        Ok(vec![
            "in0123456789.-".to_string(),
            "cm".to_string(),
            "pt".to_string(),
            "pc".to_string(),
            "%".to_string()
        ])
    );
    assert_eq!(cur.position(), 11);
}

#[test]
fn empty_dimension_array_reads_nothing() {
    let mut cur = Cursor::new(&[0xff]);
    assert_eq!(read_dimension_arrays(&mut cur, 0), Ok(vec![]));
    assert_eq!(cur.position(), 0);
}

#[test]
fn malformed_nibbles_are_errors_in_place() {
    let bad = |offset| Err(Error::MalformedBuffer { site: PREFS, offset });
    // a unit that is none
    let mut cur = Cursor::new(&[0x51, 0xff]);
    assert_eq!(read_dimension_arrays(&mut cur, 1), bad(0));
    // the end where a unit is due
    let mut cur = Cursor::new(&[0xf1, 0xff]);
    assert_eq!(read_dimension_arrays(&mut cur, 1), bad(0));
    // a digit that is none
    let mut cur = Cursor::new(&[0x21, 0xcf]);
    assert_eq!(read_dimension_arrays(&mut cur, 1), bad(1));
    assert_eq!(cur.position(), 0);
    // the nibble left in the last byte is no unit
    let mut cur = Cursor::new(&[0x21, 0xf5]);
    assert_eq!(read_dimension_arrays(&mut cur, 1), bad(1));
    // the buffer ends within the array
    let mut cur = Cursor::new(&[0x21, 0x2f]);
    assert_eq!(read_dimension_arrays(&mut cur, 2), bad(2));
    assert_eq!(cur.position(), 0);
}

#[test]
fn styles_are_a_zero_or_a_byte_and_its_value() {
    let mut cur = Cursor::new(&[0x00, 0x01, 0x07, 0x00, 0x02, 0x00, 0x09]);
    assert_eq!(read_styles(&mut cur, 4), Ok(vec![None, Some(7), None, Some(0)]));
    assert_eq!(cur.position(), 6);
    let mut cur = Cursor::new(&[0x00, 0x01]);
    assert_eq!(read_styles(&mut cur, 2), Err(Error::MalformedBuffer { site: PREFS, offset: 2 }));
    assert_eq!(cur.position(), 0);
}

#[test]
fn equation_preferences_record() {
    let bytes = [0x00, 0x01, 0x21, 0x2f, 0x02, 0x1f, 0x45, 0xf0, 0x02, 0x00, 0x03, 0x01, 0xee];
    let mut cur = Cursor::new(&bytes);
    let prefs = read_prefs(&mut cur).unwrap();
    assert_eq!(prefs.options, 0);
    assert_eq!(prefs.sizes, vec!["pt12".to_string()]);
    assert_eq!(prefs.spaces, vec!["cm".to_string(), "%5".to_string()]);
    assert_eq!(prefs.styles, vec![None, Some(1)]);
    assert_eq!(cur.position(), 12);
}

#[test]
fn strings_are_decoded_in_the_chosen_encoding() {
    let mut cur = Cursor::new(&[0xd6, 0xd0, 0x00, 0xe4, 0xb8, 0xad, 0x00, b'x']);
    assert_eq!(
        read_null_terminated_string(&mut cur, TextEncoding::Gbk, Site::Header),
        Ok("\u{4e2d}".to_string())
    );
    assert_eq!(cur.position(), 3);
    assert_eq!(
        read_null_terminated_string(&mut cur, TextEncoding::Utf8, Site::Header),
        Ok("\u{4e2d}".to_string())
    );
    assert_eq!(cur.position(), 7);
    assert_eq!(
        read_null_terminated_string(&mut cur, TextEncoding::Utf8, Site::Header),
        Err(Error::MalformedBuffer { site: Site::Header, offset: 7 })
    );
    assert_eq!(cur.position(), 7);
}

#[test]
fn bytes_that_are_no_text_leave_the_cursor() {
    let mut cur = Cursor::new(&[0xe4, 0xb8, 0x00]);
    assert_eq!(
        read_null_terminated_string(&mut cur, TextEncoding::Utf8, Site::Record(17)),
        Err(Error::MalformedBuffer { site: Site::Record(17), offset: 0 })
    );
    assert_eq!(cur.position(), 0);
    assert_eq!(decode_text(TextEncoding::Gbk, &[0xd6]), None);
    assert_eq!(decode_text(TextEncoding::Gbk, b"MathType"), Some("MathType".to_string()));
    assert_eq!(decode_text(TextEncoding::Utf8, &[]), Some(String::new()));
}

#[test]
fn decoded_text_or_error() {
    assert_eq!(text_or_error(Some("a".to_string()), Site::Header, 3), Ok("a".to_string()));
    assert_eq!(
        text_or_error(None, Site::Header, 3),
        Err(Error::MalformedBuffer { site: Site::Header, offset: 3 })
    );
}
