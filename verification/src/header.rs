//! The document header: five bytes that name the format version and the
//! program that wrote the stream, the name of the application as a
//! null-terminated string, and one byte that tells an inline equation from a
//! displayed one.

use vstd::prelude::*;
use crate::cursor::{lemma_nul_distance, lemma_nul_distance_is, nul_run_at, u8_at, Cursor};
use crate::error::{Error, Site};

verus! {

/// The fields of a document header. The numbers are kept as they stand and
/// not interpreted; the application's name is kept as the bytes of the
/// stream.
#[derive(Debug, PartialEq, Eq)]
pub struct Header {
    pub mtef_version: u8,
    pub platform: u8,
    pub product: u8,
    pub version: u8,
    pub version_sub: u8,
    /// The bytes of the application's name, without the terminator.
    pub application: Vec<u8>,
    pub inline: u8,
}

/// The model of a [`Header`].
pub struct SpecHeader {
    pub mtef_version: u8,
    pub platform: u8,
    pub product: u8,
    pub version: u8,
    pub version_sub: u8,
    pub application: Seq<u8>,
    pub inline: u8,
}

impl View for Header {
    type V = SpecHeader;

    open spec fn view(&self) -> SpecHeader {
        SpecHeader {
            mtef_version: self.mtef_version,
            platform: self.platform,
            product: self.product,
            version: self.version,
            version_sub: self.version_sub,
            application: self.application@,
            inline: self.inline,
        }
    }
}

/// The number of bytes before the application's name.
pub const HEADER_FIXED_LEN: usize = 5;

/// The header at `pos` and the number of bytes it takes up.
pub open spec fn header_at(s: Seq<u8>, pos: int) -> Result<(SpecHeader, nat), Error> {
    let site = Site::Header;
    match u8_at(s, pos, site) {
        Err(e) => Err(e),
        Ok(mtef_version) => match u8_at(s, pos + 1, site) {
            Err(e) => Err(e),
            Ok(platform) => match u8_at(s, pos + 2, site) {
                Err(e) => Err(e),
                Ok(product) => match u8_at(s, pos + 3, site) {
                    Err(e) => Err(e),
                    Ok(version) => match u8_at(s, pos + 4, site) {
                        Err(e) => Err(e),
                        Ok(version_sub) => match nul_run_at(s, pos + 5, site) {
                            Err(e) => Err(e),
                            Ok(application) => match u8_at(
                                s,
                                pos + 6 + application.len(),
                                site,
                            ) {
                                Err(e) => Err(e),
                                Ok(inline) => Ok(
                                    (
                                        SpecHeader {
                                            mtef_version,
                                            platform,
                                            product,
                                            version,
                                            version_sub,
                                            application,
                                            inline,
                                        },
                                        7 + application.len(),
                                    ),
                                ),
                            },
                        },
                    },
                },
            },
        },
    }
}

/// The bytes that a header is written as.
pub open spec fn header_bytes(h: SpecHeader) -> Seq<u8> {
    seq![h.mtef_version, h.platform, h.product, h.version, h.version_sub] + h.application + seq![
        0u8,
        h.inline,
    ]
}

/// Reads a document header. Where the read fails the cursor stays.
pub fn read_header(cur: &mut Cursor) -> (r: Result<Header, Error>)
    ensures
        match header_at(old(cur).bytes(), old(cur).offset()) {
            Ok((header, n)) => r is Ok && r->Ok_0@ == header && final(cur).offset() == old(
                cur,
            ).offset() + n,
            Err(e) => r is Err && r->Err_0 == e && final(cur).offset() == old(cur).offset(),
        },
        final(cur).bytes() == old(cur).bytes(),
{
    let site = Site::Header;
    let mut c = *cur;
    let mtef_version = match c.read_u8(site) {
        Ok(v) => v,
        Err(e) => return Err(e),
    };
    let platform = match c.read_u8(site) {
        Ok(v) => v,
        Err(e) => return Err(e),
    };
    let product = match c.read_u8(site) {
        Ok(v) => v,
        Err(e) => return Err(e),
    };
    let version = match c.read_u8(site) {
        Ok(v) => v,
        Err(e) => return Err(e),
    };
    let version_sub = match c.read_u8(site) {
        Ok(v) => v,
        Err(e) => return Err(e),
    };
    let application = match c.read_until_nul(site) {
        Ok(v) => v,
        Err(e) => return Err(e),
    };
    let inline = match c.read_u8(site) {
        Ok(v) => v,
        Err(e) => return Err(e),
    };
    *cur = c;
    Ok(Header { mtef_version, platform, product, version, version_sub, application, inline })
}

impl Header {
    /// Writes the header as the bytes that it is read from.
    pub fn encode(&self) -> (bytes: Vec<u8>)
        ensures
            bytes@ == header_bytes(self@),
    {
        let mut bytes: Vec<u8> = Vec::new();
        bytes.push(self.mtef_version);
        bytes.push(self.platform);
        bytes.push(self.product);
        bytes.push(self.version);
        bytes.push(self.version_sub);
        let ghost fixed = bytes@;
        let mut i: usize = 0;
        while i < self.application.len()
            invariant
                i <= self.application@.len(),
                bytes@ == fixed + self.application@.subrange(0, i as int),
            decreases self.application@.len() - i,
        {
            bytes.push(self.application[i]);
            i = i + 1;
        }
        assert(self.application@.subrange(0, i as int) =~= self.application@);
        bytes.push(0);
        bytes.push(self.inline);
        assert(bytes@ =~= header_bytes(self@));
        bytes
    }
}

/// A header that was read is written as the very bytes it was read from.
pub proof fn lemma_header_decode_encode(s: Seq<u8>, pos: int)
    ensures
        match header_at(s, pos) {
            Ok((header, n)) => {
                &&& 0 <= pos
                &&& pos + n <= s.len()
                &&& header_bytes(header) == s.subrange(pos, pos + n)
            },
            Err(e) => e matches Error::MalformedBuffer { site, .. } && site == Site::Header,
        },
{
    lemma_nul_distance(s, pos + 5);
    if let Ok((header, n)) = header_at(s, pos) {
        assert(header_bytes(header) =~= s.subrange(pos, pos + n));
    }
}

/// A header whose application name holds no zero byte is read back from the
/// bytes it is written as, whatever follows them.
pub proof fn lemma_header_encode_decode(h: SpecHeader, rest: Seq<u8>)
    requires
        forall|i: int| 0 <= i < h.application.len() ==> h.application[i] != 0,
    ensures
        header_at(header_bytes(h) + rest, 0) == Ok::<(SpecHeader, nat), Error>(
            (h, header_bytes(h).len()),
        ),
{
    let s = header_bytes(h) + rest;
    lemma_nul_distance_is(s, 5, h.application.len());
    assert(s.subrange(5, 5 + h.application.len() as int) =~= h.application);
}

} // verus!
