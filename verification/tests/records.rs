use mtef::cursor::Cursor;
use mtef::eqn::MTEquation;
use mtef::error::{Error, Site};
use mtef::node::{Node, Nudge, SizeMarker};
use mtef::record::{read_char_head, read_line_head, read_tmpl_head};
use mtef::tables::DefinitionTables;
use mtef::text::TextEncoding;
use mtef::tree::{decode_object_list, decode_record, DecodeOptions, Record};

fn options(max_depth: usize) -> DecodeOptions {
    DecodeOptions { max_depth, encoding: TextEncoding::Gbk }
}

fn record(bytes: &[u8], max_depth: usize) -> (Result<(Record, DefinitionTables), Error>, usize) {
    let mut cur = Cursor::new(bytes);
    let tag = cur.read_u8(Site::ObjectList).unwrap();
    let r = decode_record(tag, &mut cur, DefinitionTables::new(), 0, &options(max_depth));
    (r, cur.position())
}

#[test]
fn fraction_template_with_two_slots() {
    let bytes = [
        0x03, 0x00, 0x01, 0x02, 0x00, // TMPL, options, selector, variation, template options
        0x01, 0x00, 0x02, 0x00, 0x83, 0x78, 0x00, 0x00, // LINE { CHAR x } END
        0x01, 0x00, 0x02, 0x00, 0x83, 0x79, 0x00, 0x00, // LINE { CHAR y } END
        0x00, // END of the template
        0x0a,
    ];
    let (r, pos) = record(&bytes, 8);
    let (rec, tables) = r.unwrap();
    assert_eq!(pos, 22);
    assert_eq!(tables, DefinitionTables::new());
    let t = match rec {
        Record::Node(Node::Tmpl(t)) => t,
        other => panic!("unexpected record {:?}", other),
    };
    assert_eq!(t.selector, 1);
    assert_eq!(t.variation, 2);
    assert_eq!(t.options, 0);
    assert_eq!(t.nudge, None);
    assert_eq!(t.slots.len(), 2);
    let codes: Vec<Option<u16>> = t
        .slots
        .iter()
        .map(|slot| match slot {
            Node::Line(line) => {
                assert_eq!(line.objects.len(), 1);
                match &line.objects[0] {
                    Node::Char(c) => c.mtcode,
                    other => panic!("unexpected node {:?}", other),
                }
            }
            other => panic!("unexpected slot {:?}", other),
        })
        .collect();
    assert_eq!(codes, vec![Some(0x78), Some(0x79)]);
}

#[test]
fn template_variation_in_two_bytes() {
    let mut cur = Cursor::new(&[0x00, 0x0e, 0x85, 0x03, 0x07]);
    let t = read_tmpl_head(&mut cur).unwrap();
    assert_eq!(t.selector, 0x0e);
    assert_eq!(t.variation, 0x0305);
    assert_eq!(t.options, 7);
    assert_eq!(cur.position(), 5);
}

#[test]
fn char_without_no_mtcode_bit_carries_mtcode() {
    for options in [0x00u8, 0x04, 0x10, 0x14, 0x02] {
        let bytes = [options, 0x81, 0x41, 0x00, 0x11, 0x22, 0x33];
        let mut cur = Cursor::new(&bytes);
        let (c, embellished) = read_char_head(&mut cur).unwrap();
        assert_eq!(c.mtcode, Some(0x41));
        assert_eq!(c.font_pos8.is_some(), options & 0x04 != 0);
        assert_eq!(c.font_pos16.is_some(), options & 0x10 != 0);
        assert_eq!(c.function_start, options & 0x02 != 0);
        assert!(!embellished);
    }
}

#[test]
fn char_with_no_mtcode_bit_carries_none() {
    for options in [0x20u8, 0x24, 0x30, 0x34] {
        let bytes = [options, 0x81, 0x41, 0x42, 0x43];
        let mut cur = Cursor::new(&bytes);
        let (c, _) = read_char_head(&mut cur).unwrap();
        assert_eq!(c.mtcode, None);
    }
    let mut cur = Cursor::new(&[0x34, 0x7f, 0x41, 0x42, 0x43]);
    let (c, _) = read_char_head(&mut cur).unwrap();
    assert_eq!(c.typeface, -1);
    assert_eq!(c.font_pos8, Some(0x41));
    assert_eq!(c.font_pos16, Some(0x4342));
    assert_eq!(cur.position(), 5);
}

#[test]
fn typeface_bias_at_its_ends() {
    let mut cur = Cursor::new(&[0x20, 0x00]);
    assert_eq!(read_char_head(&mut cur).unwrap().0.typeface, -128);
    let mut cur = Cursor::new(&[0x20, 0xff]);
    assert_eq!(read_char_head(&mut cur).unwrap().0.typeface, 127);
}

#[test]
fn nudge_bit_clear_reads_no_nudge() {
    let mut cur = Cursor::new(&[0x00, 0x80, 0x80, 0x01, 0x02]);
    let line = read_line_head(&mut cur).unwrap();
    assert_eq!(line.nudge, None);
    assert_eq!(cur.position(), 1);
}

#[test]
fn nudge_bit_set_reads_two_or_four_bytes() {
    let mut cur = Cursor::new(&[0x08, 0x11, 0x22, 0x33]);
    let line = read_line_head(&mut cur).unwrap();
    assert_eq!(line.nudge, Some(Nudge { dx: 0x11, dy: 0x22 }));
    assert_eq!(cur.position(), 3);
    let mut cur = Cursor::new(&[0x08, 0x11, 0x80, 0x33, 0x44, 0x55]);
    let line = read_line_head(&mut cur).unwrap();
    assert_eq!(line.nudge, Some(Nudge { dx: 0x8011, dy: 0x4433 }));
    assert_eq!(cur.position(), 5);
}

#[test]
fn line_with_spacing_and_null_flag() {
    let mut cur = Cursor::new(&[0x05, 0x96, 0x00]);
    let line = read_line_head(&mut cur).unwrap();
    assert_eq!(line.line_spacing, Some(0x96));
    assert!(line.null);
    assert_eq!(cur.position(), 2);
    let (r, pos) = record(&[0x01, 0x05, 0x96, 0x0d, 0x00], 8);
    match r.unwrap().0 {
        Record::Node(Node::Line(line)) => {
            assert!(line.null);
            assert_eq!(line.objects, vec![Node::Size(SizeMarker::Sym)]);
        }
        other => panic!("unexpected record {:?}", other),
    }
    assert_eq!(pos, 5);
}

#[test]
fn char_with_embellishment_list() {
    let (r, pos) = record(&[0x02, 0x01, 0x83, 0x78, 0x00, 0x0e, 0x00, 0x0a], 8);
    match r.unwrap().0 {
        Record::Node(Node::Char(c)) => {
            assert_eq!(c.embellishments, vec![Node::Size(SizeMarker::SubSym)]);
        }
        other => panic!("unexpected record {:?}", other),
    }
    assert_eq!(pos, 7);
    let (r, pos) = record(&[0x02, 0x01, 0x83, 0x78, 0x00, 0x06, 0x00], 8);
    assert_eq!(r, Err(Error::UnsupportedRecord { tag: 6, offset: 5 }));
    assert_eq!(pos, 1);
}

#[test]
fn font_style_def_and_end_records() {
    let (r, pos) = record(&[0x08, 0x02, 0x01], 8);
    assert_eq!(
        r.unwrap().0,
        Record::Node(Node::FontStyleDef { font_def_index: 2, char_style: 1 })
    );
    assert_eq!(pos, 3);
    let (r, pos) = record(&[0x00, 0x02], 8);
    assert_eq!(r.unwrap().0, Record::End);
    assert_eq!(pos, 1);
    let (r, pos) = record(&[0x08, 0x02], 8);
    assert_eq!(r, Err(Error::MalformedBuffer { site: Site::Record(8), offset: 2 }));
    assert_eq!(pos, 1);
}

#[test]
fn future_record_carries_its_payload() {
    let (r, pos) = record(&[0x64, 0x03, 0xaa, 0xbb, 0xcc, 0x00], 8);
    assert_eq!(
        r.unwrap().0,
        Record::Node(Node::Future { tag: 100, payload: vec![0xaa, 0xbb, 0xcc] })
    );
    assert_eq!(pos, 5);
    let mut bytes = vec![0xc8, 0xff, 0x00, 0x01];
    bytes.extend(std::iter::repeat(0x5a).take(256));
    let (r, pos) = record(&bytes, 8);
    assert_eq!(
        r.unwrap().0,
        Record::Node(Node::Future { tag: 200, payload: vec![0x5a; 256] })
    );
    assert_eq!(pos, 260);
    let (r, pos) = record(&[0x64, 0x03, 0xaa, 0xbb], 8);
    assert_eq!(r, Err(Error::MalformedBuffer { site: Site::Record(100), offset: 2 }));
    assert_eq!(pos, 1);
}

#[test]
fn list_left_open_is_malformed() {
    let mut bytes = vec![5, 0, 0, 0, 0, 0, 0];
    bytes.extend_from_slice(&[0x01, 0x00, 0x02, 0x00, 0x83, 0x78, 0x00]);
    assert_eq!(
        MTEquation::parse(bytes),
        Err(Error::MalformedBuffer { site: Site::ObjectList, offset: 14 })
    );
    let mut cur = Cursor::new(&[]);
    let r = decode_object_list(&mut cur, DefinitionTables::new(), 1, &options(8), false);
    assert_eq!(r, Err(Error::MalformedBuffer { site: Site::ObjectList, offset: 0 }));
    let mut cur = Cursor::new(&[]);
    let r = decode_object_list(&mut cur, DefinitionTables::new(), 0, &options(8), true);
    assert_eq!(r, Ok((vec![], DefinitionTables::new())));
}

#[test]
fn nesting_beyond_the_bound_is_an_error() {
    // LINE { LINE { LINE { } } }
    let bytes = [0x01, 0x00, 0x01, 0x00, 0x01, 0x00, 0x00, 0x00, 0x00];
    let (r, pos) = record(&bytes, 3);
    assert!(r.is_ok());
    assert_eq!(pos, 9);
    let (r, pos) = record(&bytes, 2);
    assert_eq!(r, Err(Error::NestingOverflow { tag: 1, offset: 4 }));
    assert_eq!(pos, 1);
    let (r, _) = record(&bytes, 0);
    assert_eq!(r, Err(Error::NestingOverflow { tag: 1, offset: 0 }));
}
