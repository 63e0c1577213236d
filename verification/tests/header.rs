use mtef::cursor::Cursor;
use mtef::eqn::{is_equation_native, EqnOleFileHdr, MTEquation};
use mtef::error::{Error, Site};
use mtef::header::{read_header, Header};
use mtef::node::{Node, SizeMarker};
use mtef::text::TextEncoding;
use mtef::tree::DecodeOptions;

#[test]
fn header_round_trips_byte_for_byte() {
    let bytes = [0x05, 0x01, 0x02, 0x03, 0x04, b'M', b'a', b't', b'h', 0x00, 0x01, 0x0a, 0x00];
    let mut cur = Cursor::new(&bytes);
    let header = read_header(&mut cur).unwrap();
    assert_eq!(cur.position(), 11);
    assert_eq!(header.encode(), bytes[..11].to_vec());
    assert_eq!(
        header,
        Header {
            mtef_version: 5,
            platform: 1,
            product: 2,
            version: 3,
            version_sub: 4,
            application: b"Math".to_vec(),
            inline: 1,
        }
    );
}

#[test]
fn encoded_header_reads_back() {
    let header = Header {
        mtef_version: 3,
        platform: 0,
        product: 1,
        version: 9,
        version_sub: 7,
        application: vec![0xd6, 0xd0, b'!'],
        inline: 0xff,
    };
    let bytes = header.encode();
    assert_eq!(bytes, vec![3, 0, 1, 9, 7, 0xd6, 0xd0, b'!', 0, 0xff]);
    let mut cur = Cursor::new(&bytes);
    assert_eq!(read_header(&mut cur), Ok(header));
    assert_eq!(cur.remaining(), 0);
}

#[test]
fn header_with_empty_name() {
    let bytes = [5, 0, 0, 0, 0, 0, 1];
    let mut cur = Cursor::new(&bytes);
    let header = read_header(&mut cur).unwrap();
    assert!(header.application.is_empty());
    assert_eq!(header.inline, 1);
    assert_eq!(header.encode(), bytes.to_vec());
}

#[test]
fn truncated_header_leaves_the_cursor() {
    let mut cur = Cursor::new(&[5, 0, 0]);
    assert_eq!(
        read_header(&mut cur),
        Err(Error::MalformedBuffer { site: Site::Header, offset: 3 })
    );
    assert_eq!(cur.position(), 0);
}

fn ole_stream(cb_hdr: u16, version: u32, size: u32, body: &[u8]) -> Vec<u8> {
    let mut bytes = Vec::new();
    bytes.extend_from_slice(&cb_hdr.to_le_bytes());
    bytes.extend_from_slice(&version.to_le_bytes());
    bytes.extend_from_slice(&0xc1a5u16.to_le_bytes());
    bytes.extend_from_slice(&size.to_le_bytes());
    for reserved in [1u32, 2, 3, 0x04030201] {
        bytes.extend_from_slice(&reserved.to_le_bytes());
    }
    bytes.extend_from_slice(body);
    bytes
}

const BODY: [u8; 9] = [5, 0, 0, 0, 0, b'E', 0, 0, 0x0d];

#[test]
fn ole_header_fields_are_little_endian() {
    let hdr = EqnOleFileHdr::parse_ole_hdr(&ole_stream(28, 0x20000, 9, &BODY)).unwrap();
    assert_eq!(
        hdr,
        EqnOleFileHdr {
            cb_hdr: 28,
            version: 131072,
            cf: 0xc1a5,
            size: 9,
            reserved1: 1,
            reserved2: 2,
            reserved3: 3,
            reserved4: 0x04030201,
        }
    );
}

#[test]
fn ole_header_needs_the_right_length_or_the_right_version() {
    assert!(EqnOleFileHdr::parse_ole_hdr(&ole_stream(28, 7, 0, &[])).is_ok());
    assert!(EqnOleFileHdr::parse_ole_hdr(&ole_stream(30, 0x20000, 0, &[])).is_ok());
    assert_eq!(
        EqnOleFileHdr::parse_ole_hdr(&ole_stream(30, 7, 0, &[])),
        Err(Error::InvalidOLEFile)
    );
    assert_eq!(
        EqnOleFileHdr::parse_ole_hdr(&ole_stream(28, 0x20000, 0, &[])[..27]),
        Err(Error::InvalidOLEFile)
    );
    assert_eq!(EqnOleFileHdr::parse_ole_hdr(&[]), Err(Error::InvalidOLEFile));
}

#[test]
fn equation_from_the_stream_of_an_ole_object() {
    let options = DecodeOptions { max_depth: 8, encoding: TextEncoding::Gbk };
    let mut stream = ole_stream(28, 0x20000, 9, &BODY);
    stream.extend_from_slice(&[0x0a, 0x0b]);
    let eqn = MTEquation::from_equation_native(&stream, &options).unwrap();
    assert_eq!(eqn.application(), "E");
    assert_eq!(eqn.records(), &vec![Node::Size(SizeMarker::Sym)]);
    assert_eq!(Ok(eqn), MTEquation::parse(BODY.to_vec()));
}

#[test]
fn ole_stream_shorter_than_its_header_says_is_invalid() {
    let options = DecodeOptions::default();
    assert_eq!(
        MTEquation::from_equation_native(&ole_stream(28, 0x20000, 10, &BODY), &options),
        Err(Error::InvalidOLEFile)
    );
    assert_eq!(
        MTEquation::from_equation_native(&ole_stream(40, 0x20000, 0, &BODY), &options),
        Err(Error::InvalidOLEFile)
    );
    assert_eq!(
        MTEquation::from_equation_native(&ole_stream(28, 0x20000, u32::MAX, &BODY), &options),
        Err(Error::InvalidOLEFile)
    );
    assert_eq!(
        MTEquation::from_equation_native(&ole_stream(28, 0x20000, 3, &BODY), &options),
        Err(Error::MalformedBuffer { site: Site::Header, offset: 3 })
    );
}

#[test]
fn name_of_the_equation_stream() {
    assert!(is_equation_native("Equation Native"));
    assert!(!is_equation_native("Equation native"));
    assert!(!is_equation_native("\u{1}Ole"));
    assert!(!is_equation_native(""));
}

#[test]
fn default_options() {
    let options = DecodeOptions::default();
    assert_eq!(options.max_depth, 64);
    assert_eq!(options.encoding, TextEncoding::Gbk);
}

#[test]
fn each_kind_of_error_has_its_description() {
    let errors = [
        (Error::MalformedBuffer { site: Site::Header, offset: 0 }, "Buffer is truncated or holds a bad value"),
        (Error::UnsupportedRecord { tag: 4, offset: 1 }, "Record type is not supported"),
        (
            Error::UnresolvedIndex { table: mtef::error::TableKind::Font, index: 2 },
            "Table index has no definition",
        ),
        (Error::NestingOverflow { tag: 1, offset: 3 }, "Object lists are nested too deeply"),
        (
            Error::UnresolvedLookup { key: mtef::error::LookupKey::Macro { selector: 1, variation: 0 } },
            "Dictionary has no entry for the key",
        ),
        (Error::InvalidOLEFile, "Invalid OLE File"),
    ];
    for (error, text) in errors {
        assert_eq!(error.description(), text);
    }
}
