//! The equation document, and its decoding from an MTEF stream or from the
//! stream of an OLE equation object.

use vstd::prelude::*;
use vstd::slice::slice_subrange;
use vstd::string::StringExecFns;
use crate::cursor::{le16, le32, Cursor};
use crate::error::{Error, Site};
use crate::header::{header_at, read_header, Header, SpecHeader, HEADER_FIXED_LEN};
use crate::node::{nodes_view, Node, SpecNode};
use crate::tables::{initial_tables, DefinitionTables, SpecTables};
use crate::text::{decode_text, decoded_text, text_or_error, text_or_malformed, TextEncoding};
use crate::tree::{decode_object_list, list_at, DecodeOptions, DEFAULT_MAX_DEPTH};

verus! {

/// An equation: the header of its stream, the definitions that the stream
/// declares, and the nodes of its root object list.
#[derive(Debug, PartialEq, Eq)]
pub struct MTEquation {
    header: Header,
    application: String,
    tables: DefinitionTables,
    records: Vec<Node>,
}

/// The model of an [`MTEquation`].
pub struct SpecEquation {
    pub header: SpecHeader,
    /// The name of the application, decoded.
    pub application: Seq<char>,
    pub tables: SpecTables,
    /// The nodes of the root object list, in stream order.
    pub records: Seq<SpecNode>,
}

impl View for MTEquation {
    type V = SpecEquation;

    closed spec fn view(&self) -> SpecEquation {
        SpecEquation {
            header: self.header@,
            application: self.application@,
            tables: self.tables@,
            records: nodes_view(self.records@),
        }
    }
}

/// The equation that the stream `s` holds: the header; the name of the
/// application, decoded from the header's bytes; then the root object list,
/// which runs to its END or to the end of the stream, read with the tables
/// that hold the built-in encodings.
pub open spec fn equation_of(s: Seq<u8>, options: DecodeOptions) -> Result<SpecEquation, Error> {
    match header_at(s, 0) {
        Err(e) => Err(e),
        Ok((header, n)) => match text_or_malformed(
            decoded_text(options.encoding, header.application),
            Site::Header,
            HEADER_FIXED_LEN as int,
        ) {
            Err(e) => Err(e),
            Ok(application) => match list_at(s, n as int, initial_tables(), 0, options, true) {
                Err(e) => Err(e),
                Ok((records, m, tables)) => Ok(SpecEquation { header, application, tables, records }),
            },
        },
    }
}

/// The options that [`MTEquation::parse`] decodes with.
pub open spec fn default_options() -> DecodeOptions {
    DecodeOptions { max_depth: DEFAULT_MAX_DEPTH, encoding: TextEncoding::Gbk }
}

/// Whether `r` is the equation that `expected` gives, or the error that it
/// gives.
pub open spec fn is_equation(r: Result<MTEquation, Error>, expected: Result<SpecEquation, Error>) -> bool {
    match expected {
        Ok(eqn) => r is Ok && r->Ok_0@ == eqn,
        Err(e) => r is Err && r->Err_0 == e,
    }
}

impl MTEquation {
    /// Decodes the MTEF stream in `buf`, with strings in GBK and object
    /// lists up to `DEFAULT_MAX_DEPTH` deep.
    pub fn parse(buf: Vec<u8>) -> (r: Result<MTEquation, Error>)
        ensures
            is_equation(r, equation_of(buf@, default_options())),
            r is Ok ==> initial_tables().grows_to(r->Ok_0@.tables),
    {
        let options = DecodeOptions::default();
        MTEquation::parse_with(buf.as_slice(), &options)
    }

    /// Decodes the MTEF stream in `buf`.
    pub fn parse_with(buf: &[u8], options: &DecodeOptions) -> (r: Result<MTEquation, Error>)
        ensures
            is_equation(r, equation_of(buf@, *options)),
            r is Ok ==> initial_tables().grows_to(r->Ok_0@.tables),
    {
        let mut cur = Cursor::new(buf);
        let header = match read_header(&mut cur) {
            Ok(v) => v,
            Err(e) => return Err(e),
        };
        let decoded = decode_text(options.encoding, header.application.as_slice());
        let application = match text_or_error(decoded, Site::Header, HEADER_FIXED_LEN) {
            Ok(v) => v,
            Err(e) => return Err(e),
        };
        let (records, tables) = match decode_object_list(
            &mut cur,
            DefinitionTables::new(),
            0,
            options,
            true,
        ) {
            Ok(v) => v,
            Err(e) => return Err(e),
        };
        Ok(MTEquation { header, application, tables, records })
    }

    /// The header of the stream.
    pub fn header(&self) -> (h: &Header)
        ensures
            h@ == self@.header,
    {
        &self.header
    }

    /// The version of the format.
    pub fn mtef_version(&self) -> (v: u8)
        ensures
            v == self@.header.mtef_version,
    {
        self.header.mtef_version
    }

    /// The platform that the stream was written on.
    pub fn platform(&self) -> (v: u8)
        ensures
            v == self@.header.platform,
    {
        self.header.platform
    }

    /// The product that wrote the stream.
    pub fn product(&self) -> (v: u8)
        ensures
            v == self@.header.product,
    {
        self.header.product
    }

    /// The version of the product.
    pub fn version(&self) -> (v: u8)
        ensures
            v == self@.header.version,
    {
        self.header.version
    }

    /// The sub-version of the product.
    pub fn version_sub(&self) -> (v: u8)
        ensures
            v == self@.header.version_sub,
    {
        self.header.version_sub
    }

    /// The name of the application that wrote the stream.
    pub fn application(&self) -> (name: &String)
        ensures
            name@ == self@.application,
    {
        &self.application
    }

    /// The flag that tells an inline equation from a displayed one.
    pub fn inline(&self) -> (v: u8)
        ensures
            v == self@.header.inline,
    {
        self.header.inline
    }

    /// The definition tables as they stand after the whole stream.
    pub fn tables(&self) -> (t: &DefinitionTables)
        ensures
            t@ == self@.tables,
    {
        &self.tables
    }

    /// The nodes of the root object list.
    pub fn records(&self) -> (nodes: &Vec<Node>)
        ensures
            nodes_view(nodes@) == self@.records,
    {
        &self.records
    }
}

/// The header that precedes the MTEF data in the stream of an OLE equation
/// object.
#[derive(Debug, Clone, Copy, PartialEq, Eq)]
pub struct EqnOleFileHdr {
    /// The length of this header, 28 bytes.
    pub cb_hdr: u16,
    /// The version: high word 2, low word 0.
    pub version: u32,
    /// The clipboard format.
    pub cf: u16,
    /// The length of the MTEF data that follows the header.
    pub size: u32,
    pub reserved1: u32,
    pub reserved2: u32,
    pub reserved3: u32,
    pub reserved4: u32,
}

/// The length of the header of an OLE equation stream.
pub const OLE_HEADER_LEN: u16 = 28;

/// The version that the header of an OLE equation stream names.
pub const OLE_HEADER_VERSION: u32 = 0x20000;

/// The little-endian 32-bit value in the four bytes of `s` at `pos`.
pub open spec fn le32_in(s: Seq<u8>, pos: int) -> u32 {
    le32(s[pos], s[pos + 1], s[pos + 2], s[pos + 3])
}

/// The header that the OLE equation stream `s` starts with: its fields in
/// little-endian order. A stream shorter than the header is no OLE equation
/// stream, nor is one whose header names neither the right length nor the
/// right version.
pub open spec fn ole_header_of(s: Seq<u8>) -> Result<EqnOleFileHdr, Error> {
    if s.len() < OLE_HEADER_LEN {
        Err(Error::InvalidOLEFile)
    } else {
        let hdr = EqnOleFileHdr {
            cb_hdr: le16(s[0], s[1]),
            version: le32_in(s, 2),
            cf: le16(s[6], s[7]),
            size: le32_in(s, 8),
            reserved1: le32_in(s, 12),
            reserved2: le32_in(s, 16),
            reserved3: le32_in(s, 20),
            reserved4: le32_in(s, 24),
        };
        if hdr.cb_hdr != OLE_HEADER_LEN && hdr.version != OLE_HEADER_VERSION {
            Err(Error::InvalidOLEFile)
        } else {
            Ok(hdr)
        }
    }
}

/// The MTEF data in the OLE equation stream `s`: the `size` bytes that
/// follow the first `cb_hdr` bytes, as the stream's header gives the two. A
/// stream that does not hold that many bytes is no OLE equation stream.
pub open spec fn native_body_of(s: Seq<u8>) -> Result<Seq<u8>, Error> {
    match ole_header_of(s) {
        Err(e) => Err(e),
        Ok(hdr) => if hdr.cb_hdr + hdr.size <= s.len() {
            Ok(s.subrange(hdr.cb_hdr as int, hdr.cb_hdr + hdr.size))
        } else {
            Err(Error::InvalidOLEFile)
        },
    }
}

/// The equation in the OLE equation stream `s`.
pub open spec fn native_equation_of(s: Seq<u8>, options: DecodeOptions) -> Result<SpecEquation, Error> {
    match native_body_of(s) {
        Err(e) => Err(e),
        Ok(body) => equation_of(body, options),
    }
}

impl EqnOleFileHdr {
    /// Reads the header that the stream of an OLE equation object starts
    /// with.
    pub fn parse_ole_hdr(buf: &[u8]) -> (r: Result<EqnOleFileHdr, Error>)
        ensures
            r == ole_header_of(buf@),
    {
        if buf.len() < OLE_HEADER_LEN as usize {
            return Err(Error::InvalidOLEFile);
        }
        let site = Site::Header;
        let mut cur = Cursor::new(buf);
        let cb_hdr = match cur.read_u16_le(site) {
            Ok(v) => v,
            Err(_) => return Err(Error::InvalidOLEFile),
        };
        let version = match cur.read_u32_le(site) {
            Ok(v) => v,
            Err(_) => return Err(Error::InvalidOLEFile),
        };
        let cf = match cur.read_u16_le(site) {
            Ok(v) => v,
            Err(_) => return Err(Error::InvalidOLEFile),
        };
        let size = match cur.read_u32_le(site) {
            Ok(v) => v,
            Err(_) => return Err(Error::InvalidOLEFile),
        };
        let reserved1 = match cur.read_u32_le(site) {
            Ok(v) => v,
            Err(_) => return Err(Error::InvalidOLEFile),
        };
        let reserved2 = match cur.read_u32_le(site) {
            Ok(v) => v,
            Err(_) => return Err(Error::InvalidOLEFile),
        };
        let reserved3 = match cur.read_u32_le(site) {
            Ok(v) => v,
            Err(_) => return Err(Error::InvalidOLEFile),
        };
        let reserved4 = match cur.read_u32_le(site) {
            Ok(v) => v,
            Err(_) => return Err(Error::InvalidOLEFile),
        };
        let hdr = EqnOleFileHdr {
            cb_hdr,
            version,
            cf,
            size,
            reserved1,
            reserved2,
            reserved3,
            reserved4,
        };
        if OLE_HEADER_LEN != hdr.cb_hdr && OLE_HEADER_VERSION != hdr.version {
            Err(Error::InvalidOLEFile)
        } else {
            Ok(hdr)
        }
    }
}

/// The name under which an OLE equation object stores its equation.
pub open spec fn equation_native_name() -> Seq<char> {
    "Equation Native"@
}

/// Tells whether `name` is the name of the stream in which an OLE equation
/// object stores its equation.
pub fn is_equation_native(name: &str) -> (b: bool)
    ensures
        b == (name@ == equation_native_name()),
{
    let given = String::from_str(name);
    let wanted = String::from_str("Equation Native");
    given == wanted
}

impl MTEquation {
    /// Decodes the equation in the stream of an OLE equation object, the
    /// stream that such an object stores under the name "Equation Native":
    /// a header, then the MTEF data.
    pub fn from_equation_native(stream: &[u8], options: &DecodeOptions) -> (r: Result<
        MTEquation,
        Error,
    >)
        ensures
            is_equation(r, native_equation_of(stream@, *options)),
    {
        let hdr = match EqnOleFileHdr::parse_ole_hdr(stream) {
            Ok(v) => v,
            Err(e) => return Err(e),
        };
        let start = hdr.cb_hdr as usize;
        let size = hdr.size as usize;
        if start <= stream.len() && size <= stream.len() - start {
            MTEquation::parse_with(slice_subrange(stream, start, start + size), options)
        } else {
            Err(Error::InvalidOLEFile)
        }
    }
}

} // verus!
