use mtef::eqn::MTEquation;
use mtef::error::{Error, Site};
use mtef::node::{Node, SizeMarker};
use mtef::text::TextEncoding;
use mtef::tree::DecodeOptions;

fn header(name: &[u8]) -> Vec<u8> {
    let mut bytes = vec![0x05, 0x00, 0x00, 0x00, 0x00];
    bytes.extend_from_slice(name);
    bytes.push(0x00);
    bytes.push(0x00);
    bytes
}

fn stream(records: &[u8]) -> Vec<u8> {
    let mut bytes = header(b"MathType");
    bytes.extend_from_slice(records);
    bytes
}

#[test]
fn single_character_document() {
    let eqn = MTEquation::parse(stream(&[0x02, 0x00, 0x83, 0x78, 0x00, 0x00])).unwrap();
    assert_eq!(eqn.mtef_version(), 5);
    assert_eq!(eqn.platform(), 0);
    assert_eq!(eqn.product(), 0);
    assert_eq!(eqn.version(), 0);
    assert_eq!(eqn.version_sub(), 0);
    assert_eq!(eqn.application(), "MathType");
    assert_eq!(eqn.inline(), 0);
    assert_eq!(eqn.records().len(), 1);
    match &eqn.records()[0] {
        Node::Char(c) => {
            assert_eq!(c.typeface, mtef::constants::FN_VARIABLE as i8);
            assert_eq!(c.mtcode, Some(0x78));
            assert_eq!(c.nudge, None);
            assert_eq!(c.font_pos8, None);
            assert_eq!(c.font_pos16, None);
            assert!(!c.function_start);
            assert!(c.embellishments.is_empty());
        }
        other => panic!("unexpected node {:?}", other),
    }
}

#[test]
fn root_list_may_end_with_the_buffer() {
    let eqn = MTEquation::parse(stream(&[0x0a, 0x0b])).unwrap();
    assert_eq!(
        eqn.records(),
        &vec![Node::Size(SizeMarker::Full), Node::Size(SizeMarker::Sub)]
    );
}

#[test]
fn bytes_after_the_outermost_end_are_left_alone() {
    let eqn = MTEquation::parse(stream(&[0x0c, 0x00, 0x04, 0xff])).unwrap();
    assert_eq!(eqn.records(), &vec![Node::Size(SizeMarker::Sub2)]);
}

#[test]
fn empty_stream_is_malformed_at_its_start() {
    assert_eq!(
        MTEquation::parse(vec![]),
        Err(Error::MalformedBuffer { site: Site::Header, offset: 0 })
    );
}

#[test]
fn header_without_terminator_is_malformed() {
    assert_eq!(
        MTEquation::parse(vec![5, 0, 0, 0, 0, b'M', b'T']),
        Err(Error::MalformedBuffer { site: Site::Header, offset: 5 })
    );
}

#[test]
fn header_without_inline_flag_is_malformed() {
    assert_eq!(
        MTEquation::parse(vec![5, 0, 0, 0, 0, b'M', b'T', 0]),
        Err(Error::MalformedBuffer { site: Site::Header, offset: 8 })
    );
}

#[test]
fn application_name_is_decoded_as_gbk() {
    let mut bytes = header(&[0xd6, 0xd0]);
    bytes.push(0x00);
    let eqn = MTEquation::parse(bytes).unwrap();
    assert_eq!(eqn.application(), "\u{4e2d}");
    assert_eq!(eqn.header().application, vec![0xd6, 0xd0]);
}

#[test]
fn application_name_is_decoded_as_utf8_on_request() {
    let mut bytes = header(&[0xe4, 0xb8, 0xad]);
    bytes.push(0x00);
    let options = DecodeOptions { max_depth: 4, encoding: TextEncoding::Utf8 };
    let eqn = MTEquation::parse_with(&bytes, &options).unwrap();
    assert_eq!(eqn.application(), "\u{4e2d}");
}

#[test]
fn application_name_that_is_no_text_is_malformed() {
    let mut bytes = header(&[0xff, 0xff]);
    bytes.push(0x00);
    let options = DecodeOptions { max_depth: 4, encoding: TextEncoding::Utf8 };
    assert_eq!(
        MTEquation::parse_with(&bytes, &options),
        Err(Error::MalformedBuffer { site: Site::Header, offset: 5 })
    );
}

#[test]
fn unsupported_records_are_reported_with_tag_and_place() {
    for tag in [4u8, 5, 6, 7, 9, 15, 16, 20, 99] {
        assert_eq!(
            MTEquation::parse(stream(&[0x0a, tag, 0x00])),
            Err(Error::UnsupportedRecord { tag, offset: 16 })
        );
    }
}

#[test]
fn same_buffer_decodes_to_the_same_tree() {
    let bytes = stream(&[0x01, 0x00, 0x02, 0x00, 0x83, 0x78, 0x00, 0x00, 0x00]);
    assert_eq!(MTEquation::parse(bytes.clone()), MTEquation::parse(bytes));
}
