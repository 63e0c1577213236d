//! Text encodings of the strings in a stream, and the null-terminated
//! string decoder.

use vstd::prelude::*;
use encoding::all::{GBK, UTF_8};
use encoding::{DecoderTrap, Encoding};
use crate::cursor::{nul_run_at, Cursor};
use crate::error::{Error, Site};

verus! {

/// The encoding in which a stream stores its strings.
#[derive(Debug, Clone, Copy, PartialEq, Eq)]
pub enum TextEncoding {
    /// The code page of the simplified Chinese versions of Windows.
    Gbk,
    Utf8,
}

/// What the `encoding` crate's GBK decoder makes of `bytes`, in strict mode:
/// the decoded text, or `None` where the bytes are no GBK text.
pub uninterp spec fn gbk_text(bytes: Seq<u8>) -> Option<Seq<char>>;

/// What the `encoding` crate's UTF-8 decoder makes of `bytes`, in strict
/// mode: the decoded text, or `None` where the bytes are no UTF-8 text.
pub uninterp spec fn utf8_text(bytes: Seq<u8>) -> Option<Seq<char>>;

/// The text that `bytes` stand for in the given encoding.
pub open spec fn decoded_text(encoding: TextEncoding, bytes: Seq<u8>) -> Option<Seq<char>> {
    match encoding {
        TextEncoding::Gbk => gbk_text(bytes),
        TextEncoding::Utf8 => utf8_text(bytes),
    }
}

/// Whether `r` is the string whose text is `text`, or no string where
/// there is no text.
pub open spec fn is_text(r: Option<String>, text: Option<Seq<char>>) -> bool {
    match text {
        Some(t) => r is Some && r->Some_0@ == t,
        None => r is None,
    }
}

/// `encoding::Encoding::decode` of `encoding::all::GBK` with
/// `DecoderTrap::Strict`: the call's result is a function of the bytes
/// alone, named `gbk_text`; the decoder's error becomes `None`.
#[verifier::external_body]
fn gbk_decode(bytes: &[u8]) -> (r: Option<String>)
    ensures
        is_text(r, gbk_text(bytes@)),
{
    match GBK.decode(bytes, DecoderTrap::Strict) {
        Ok(text) => Some(text),
        Err(_) => None,
    }
}

/// `encoding::Encoding::decode` of `encoding::all::UTF_8` with
/// `DecoderTrap::Strict`: the call's result is a function of the bytes
/// alone, named `utf8_text`; the decoder's error becomes `None`.
#[verifier::external_body]
fn utf8_decode(bytes: &[u8]) -> (r: Option<String>)
    ensures
        is_text(r, utf8_text(bytes@)),
{
    match UTF_8.decode(bytes, DecoderTrap::Strict) {
        Ok(text) => Some(text),
        Err(_) => None,
    }
}

/// Decodes `bytes` in the given encoding.
pub fn decode_text(encoding: TextEncoding, bytes: &[u8]) -> (r: Option<String>)
    ensures
        is_text(r, decoded_text(encoding, bytes@)),
{
    match encoding {
        TextEncoding::Gbk => gbk_decode(bytes),
        TextEncoding::Utf8 => utf8_decode(bytes),
    }
}

/// The result of a string read whose bytes, found at `offset`, decoded to
/// `decoded`.
pub open spec fn text_or_malformed(decoded: Option<Seq<char>>, site: Site, offset: int) -> Result<
    Seq<char>,
    Error,
> {
    match decoded {
        Some(text) => Ok(text),
        None => Err(Error::MalformedBuffer { site, offset: offset as usize }),
    }
}

/// Turns the outcome of decoding the bytes of a string into the result of
/// reading that string: bytes that are no text in the encoding make the
/// buffer malformed at the string's first byte.
pub fn text_or_error(decoded: Option<String>, site: Site, offset: usize) -> (r: Result<String, Error>)
    ensures
        match decoded {
            Some(text) => r == Ok::<String, Error>(text),
            None => r == Err::<String, Error>(Error::MalformedBuffer { site, offset }),
        },
{
    match decoded {
        Some(text) => Ok(text),
        None => Err(Error::MalformedBuffer { site, offset }),
    }
}

/// The text of the null-terminated string at `pos`, and the number of bytes
/// that it takes up, its terminator included.
pub open spec fn text_at(s: Seq<u8>, pos: int, encoding: TextEncoding, site: Site) -> Result<
    (Seq<char>, nat),
    Error,
> {
    match nul_run_at(s, pos, site) {
        Err(e) => Err(e),
        Ok(run) => match text_or_malformed(decoded_text(encoding, run), site, pos) {
            Err(e) => Err(e),
            Ok(text) => Ok((text, run.len() + 1)),
        },
    }
}

/// Reads a null-terminated string and decodes it. The cursor moves past the
/// terminator; where the read fails it stays.
pub fn read_null_terminated_string(cur: &mut Cursor, encoding: TextEncoding, site: Site) -> (r:
    Result<String, Error>)
    ensures
        match text_at(old(cur).bytes(), old(cur).offset(), encoding, site) {
            Ok((text, n)) => r is Ok && r->Ok_0@ == text && final(cur).offset() == old(cur).offset()
                + n,
            Err(e) => r == Err::<String, Error>(e) && final(cur).offset() == old(cur).offset(),
        },
        final(cur).bytes() == old(cur).bytes(),
{
    let start = cur.position();
    let mut c = *cur;
    match c.read_until_nul(site) {
        Err(e) => Err(e),
        Ok(run) => match text_or_error(decode_text(encoding, run.as_slice()), site, start) {
            Err(e) => Err(e),
            Ok(text) => {
                *cur = c;
                Ok(text)
            },
        },
    }
}

} // verus!
