//! Decoders of the values whose width depends on what they hold: nudges,
//! template variations, the length of a future record, and the
//! nibble-packed arrays of dimensions.

use vstd::prelude::*;
use vstd::string::StringExecFns;
use crate::constants::{EQN_PREFS, MTEF_OPT_NUDGE};
use crate::cursor::{u16_le_at, u8_at, Cursor};
use crate::error::{Error, Site};
use crate::node::{lemma_texts_of_push, texts_of, Nudge};
use crate::options::{has_flag, RecordOptions};

verus! {

/// The byte value that, on either coordinate of a nudge, announces the wide
/// form.
pub const NUDGE_SENTINEL: u8 = 128;

/// The nudge at `pos` and the number of bytes it takes up. The two bytes at
/// `pos` are the coordinates, unless one of them is the sentinel: then the
/// four bytes at `pos` hold the coordinates as little-endian 16-bit values.
pub open spec fn nudge_at(s: Seq<u8>, pos: int, site: Site) -> Result<(Nudge, nat), Error> {
    match u8_at(s, pos, site) {
        Err(e) => Err(e),
        Ok(b0) => match u8_at(s, pos + 1, site) {
            Err(e) => Err(e),
            Ok(b1) => if b0 == NUDGE_SENTINEL || b1 == NUDGE_SENTINEL {
                match u16_le_at(s, pos, site) {
                    Err(e) => Err(e),
                    Ok(dx) => match u16_le_at(s, pos + 2, site) {
                        Err(e) => Err(e),
                        Ok(dy) => Ok((Nudge { dx, dy }, 4)),
                    },
                }
            } else {
                Ok((Nudge { dx: b0 as u16, dy: b1 as u16 }, 2))
            },
        },
    }
}

/// The nudge of a record with the option byte `options`: absent, and no byte
/// long, where the nudge bit is clear.
pub open spec fn optional_nudge_at(s: Seq<u8>, pos: int, options: u8, site: Site) -> Result<
    (Option<Nudge>, nat),
    Error,
> {
    if has_flag(options, MTEF_OPT_NUDGE) {
        match nudge_at(s, pos, site) {
            Err(e) => Err(e),
            Ok((nudge, n)) => Ok((Some(nudge), n)),
        }
    } else {
        Ok((None, 0))
    }
}

/// The number of bytes that the nudge at `pos` takes up in a record with the
/// option byte `options`: none where the nudge bit is clear, else four where
/// either coordinate byte is the sentinel, else two.
pub open spec fn nudge_width(s: Seq<u8>, pos: int, options: u8) -> nat {
    if !has_flag(options, MTEF_OPT_NUDGE) {
        0
    } else if s[pos] == NUDGE_SENTINEL || s[pos + 1] == NUDGE_SENTINEL {
        4
    } else {
        2
    }
}

/// A nudge takes up two bytes in the narrow form and four in the wide; a
/// record whose nudge bit is clear holds no nudge and gives no byte to one.
pub proof fn lemma_nudge_width(s: Seq<u8>, pos: int, options: u8, site: Site)
    ensures
        !has_flag(options, MTEF_OPT_NUDGE) ==> optional_nudge_at(s, pos, options, site) == Ok::<
            (Option<Nudge>, nat),
            Error,
        >((None, 0)),
        has_flag(options, MTEF_OPT_NUDGE) ==> match optional_nudge_at(s, pos, options, site) {
            Ok((nudge, n)) => {
                &&& nudge is Some
                &&& n == 2 || n == 4
                &&& n == 4 <==> s[pos] == NUDGE_SENTINEL || s[pos + 1] == NUDGE_SENTINEL
                &&& 0 <= pos && pos + n <= s.len()
            },
            Err(e) => e is MalformedBuffer,
        },
        optional_nudge_at(s, pos, options, site) matches Ok((nudge, n)) ==> n == nudge_width(
            s,
            pos,
            options,
        ),
{
}

/// Reads a nudge. Where the read fails the cursor stays.
pub fn read_nudge_values(cur: &mut Cursor, site: Site) -> (r: Result<Nudge, Error>)
    ensures
        match nudge_at(old(cur).bytes(), old(cur).offset(), site) {
            Ok((nudge, n)) => r == Ok::<Nudge, Error>(nudge) && final(cur).offset() == old(
                cur,
            ).offset() + n,
            Err(e) => r == Err::<Nudge, Error>(e) && final(cur).offset() == old(cur).offset(),
        },
        final(cur).bytes() == old(cur).bytes(),
{
    let mut narrow = *cur;
    let b0 = match narrow.read_u8(site) {
        Ok(b) => b,
        Err(e) => return Err(e),
    };
    let b1 = match narrow.read_u8(site) {
        Ok(b) => b,
        Err(e) => return Err(e),
    };
    if b0 == NUDGE_SENTINEL || b1 == NUDGE_SENTINEL {
        let mut wide = *cur;
        let dx = match wide.read_u16_le(site) {
            Ok(v) => v,
            Err(e) => return Err(e),
        };
        let dy = match wide.read_u16_le(site) {
            Ok(v) => v,
            Err(e) => return Err(e),
        };
        *cur = wide;
        Ok(Nudge { dx, dy })
    } else {
        *cur = narrow;
        Ok(Nudge { dx: b0 as u16, dy: b1 as u16 })
    }
}

/// Reads the nudge of a record with the option byte `options`, if the
/// record has one.
pub fn read_optional_nudge(cur: &mut Cursor, options: RecordOptions, site: Site) -> (r: Result<
    Option<Nudge>,
    Error,
>)
    ensures
        match optional_nudge_at(old(cur).bytes(), old(cur).offset(), options.bits, site) {
            Ok((nudge, n)) => r == Ok::<Option<Nudge>, Error>(nudge) && final(cur).offset() == old(
                cur,
            ).offset() + n,
            Err(e) => r == Err::<Option<Nudge>, Error>(e) && final(cur).offset() == old(
                cur,
            ).offset(),
        },
        final(cur).bytes() == old(cur).bytes(),
{
    if options.nudge() {
        match read_nudge_values(cur, site) {
            Ok(nudge) => Ok(Some(nudge)),
            Err(e) => Err(e),
        }
    } else {
        Ok(None)
    }
}

/// The template variation at `pos` and the number of bytes it takes up: one
/// byte, or two where the first has its high bit set. The low seven bits of
/// the first byte are the low bits of the value, the second byte is its
/// high byte.
pub open spec fn variation_at(s: Seq<u8>, pos: int, site: Site) -> Result<(u16, nat), Error> {
    match u8_at(s, pos, site) {
        Err(e) => Err(e),
        Ok(b0) => if b0 >= 128 {
            match u8_at(s, pos + 1, site) {
                Err(e) => Err(e),
                Ok(b1) => Ok((((b0 - 128) + 256 * b1) as u16, 2)),
            }
        } else {
            Ok((b0 as u16, 1))
        },
    }
}

/// Reads a template variation. Where the read fails the cursor stays.
pub fn read_variation(cur: &mut Cursor, site: Site) -> (r: Result<u16, Error>)
    ensures
        match variation_at(old(cur).bytes(), old(cur).offset(), site) {
            Ok((v, n)) => r == Ok::<u16, Error>(v) && final(cur).offset() == old(cur).offset() + n,
            Err(e) => r == Err::<u16, Error>(e) && final(cur).offset() == old(cur).offset(),
        },
        final(cur).bytes() == old(cur).bytes(),
{
    let mut c = *cur;
    let b0 = match c.read_u8(site) {
        Ok(b) => b,
        Err(e) => return Err(e),
    };
    if b0 >= 128 {
        let b1 = match c.read_u8(site) {
            Ok(b) => b,
            Err(e) => return Err(e),
        };
        *cur = c;
        Ok((b0 - 128) as u16 + 256 * (b1 as u16))
    } else {
        *cur = c;
        Ok(b0 as u16)
    }
}

/// The byte value that, in place of a length, announces a 16-bit length.
pub const WIDE_LENGTH: u8 = 255;

/// The payload length of a future record, stored at `pos`, and the number of
/// bytes the length itself takes up: one byte, or the byte 255 and then a
/// little-endian 16-bit value.
pub open spec fn length_at(s: Seq<u8>, pos: int, site: Site) -> Result<(usize, nat), Error> {
    match u8_at(s, pos, site) {
        Err(e) => Err(e),
        Ok(b0) => if b0 == WIDE_LENGTH {
            match u16_le_at(s, pos + 1, site) {
                Err(e) => Err(e),
                Ok(n) => Ok((n as usize, 3)),
            }
        } else {
            Ok((b0 as usize, 1))
        },
    }
}

/// Reads the payload length of a future record. Where the read fails the
/// cursor stays.
pub fn read_length(cur: &mut Cursor, site: Site) -> (r: Result<usize, Error>)
    ensures
        match length_at(old(cur).bytes(), old(cur).offset(), site) {
            Ok((v, n)) => r == Ok::<usize, Error>(v) && final(cur).offset() == old(cur).offset()
                + n,
            Err(e) => r == Err::<usize, Error>(e) && final(cur).offset() == old(cur).offset(),
        },
        final(cur).bytes() == old(cur).bytes(),
{
    let mut c = *cur;
    let b0 = match c.read_u8(site) {
        Ok(b) => b,
        Err(e) => return Err(e),
    };
    if b0 == WIDE_LENGTH {
        let n = match c.read_u16_le(site) {
            Ok(v) => v,
            Err(e) => return Err(e),
        };
        *cur = c;
        Ok(n as usize)
    } else {
        *cur = c;
        Ok(b0 as usize)
    }
}

/// The nibble that ends a dimension.
pub const DIMENSION_END: u8 = 15;

/// The text that the nibble `x` adds to a dimension: the symbol of a unit
/// where a unit is due, else a digit, a point or a minus sign. `None` for a
/// nibble that its place does not allow.
pub open spec fn nibble_text(x: u8, at_unit: bool) -> Option<Seq<char>> {
    if at_unit {
        if x == 0 {
            Some("in"@)
        } else if x == 1 {
            Some("cm"@)
        } else if x == 2 {
            Some("pt"@)
        } else if x == 3 {
            Some("pc"@)
        } else if x == 4 {
            Some("%"@)
        } else {
            None
        }
    } else {
        if x == 0 {
            Some("0"@)
        } else if x == 1 {
            Some("1"@)
        } else if x == 2 {
            Some("2"@)
        } else if x == 3 {
            Some("3"@)
        } else if x == 4 {
            Some("4"@)
        } else if x == 5 {
            Some("5"@)
        } else if x == 6 {
            Some("6"@)
        } else if x == 7 {
            Some("7"@)
        } else if x == 8 {
            Some("8"@)
        } else if x == 9 {
            Some("9"@)
        } else if x == 10 {
            Some("."@)
        } else if x == 11 {
            Some("-"@)
        } else {
            None
        }
    }
}

/// How far the decoding of an array of dimensions has come.
pub struct DimState {
    /// The dimensions that are complete, in stream order.
    pub out: Seq<Seq<char>>,
    /// The text of the dimension that is being read.
    pub text: Seq<char>,
    /// The next nibble is the unit of a dimension.
    pub at_unit: bool,
}

/// The state before the first nibble.
pub open spec fn dim_start() -> DimState {
    DimState { out: Seq::empty(), text: Seq::empty(), at_unit: true }
}

/// The state after the nibble `x`: a dimension starts with the nibble of its
/// unit, goes on with the nibbles of its number and ends with the nibble
/// 15. `None` for a nibble that its place does not allow.
pub open spec fn dim_nibble(st: DimState, x: u8) -> Option<DimState> {
    if !st.at_unit && x == DIMENSION_END {
        Some(DimState { out: st.out.push(st.text), text: Seq::empty(), at_unit: true })
    } else {
        match nibble_text(x, st.at_unit) {
            Some(t) => Some(DimState { out: st.out, text: st.text + t, at_unit: false }),
            None => None,
        }
    }
}

/// Decoding of an array of `count` dimensions, taken up at the byte `pos` in
/// state `st`, after `used` bytes. Each byte holds two nibbles, the high one
/// first. Decoding stops after the byte that completes the array; where that
/// byte has a nibble left, it must be the nibble of a unit.
pub open spec fn dimensions_from(
    s: Seq<u8>,
    pos: int,
    count: nat,
    st: DimState,
    used: nat,
    site: Site,
) -> Result<(Seq<Seq<char>>, nat), Error>
    decreases s.len() - pos,
{
    if st.out.len() >= count {
        Ok((st.out, used))
    } else {
        match u8_at(s, pos, site) {
            Err(e) => Err(e),
            Ok(b) => match dim_nibble(st, b / 16) {
                None => Err(Error::MalformedBuffer { site, offset: pos as usize }),
                Some(st1) => match dim_nibble(st1, b % 16) {
                    None => Err(Error::MalformedBuffer { site, offset: pos as usize }),
                    Some(st2) => dimensions_from(s, pos + 1, count, st2, used + 1, site),
                },
            },
        }
    }
}

/// The array of `count` dimensions at `pos`, each as the symbol of its unit
/// followed by its number, and the number of bytes the array takes up.
pub open spec fn dimensions_at(s: Seq<u8>, pos: int, count: nat, site: Site) -> Result<
    (Seq<Seq<char>>, nat),
    Error,
> {
    dimensions_from(s, pos, count, dim_start(), 0, site)
}

/// An array of dimensions lies within the buffer: decoding reads whole
/// bytes, one after the other, and none beyond the buffer's end.
pub proof fn lemma_dimensions_in_bounds(
    s: Seq<u8>,
    pos: int,
    count: nat,
    st: DimState,
    used: nat,
    site: Site,
)
    ensures
        match dimensions_from(s, pos, count, st, used, site) {
            Ok((dims, n)) => {
                &&& n >= used
                &&& n > used ==> 0 <= pos && pos + (n - used) <= s.len()
                &&& dims.len() >= count
            },
            Err(e) => e is MalformedBuffer,
        },
    decreases s.len() - pos,
{
    if st.out.len() < count {
        if let Ok(b) = u8_at(s, pos, site) {
            if let Some(st1) = dim_nibble(st, b / 16) {
                if let Some(st2) = dim_nibble(st1, b % 16) {
                    lemma_dimensions_in_bounds(s, pos + 1, count, st2, used + 1, site);
                }
            }
        }
    }
}

/// The dimensions read so far and the one in progress.
struct DimBuilder {
    out: Vec<String>,
    text: String,
    at_unit: bool,
}

impl View for DimBuilder {
    type V = DimState;

    closed spec fn view(&self) -> DimState {
        DimState { out: texts_of(self.out@), text: self.text@, at_unit: self.at_unit }
    }
}

/// The text for a nibble, as `nibble_text` gives it.
fn nibble_str(x: u8, at_unit: bool) -> (r: Option<&'static str>)
    ensures
        match nibble_text(x, at_unit) {
            Some(t) => r is Some && r->Some_0@ == t,
            None => r is None,
        },
{
    if at_unit {
        match x {
            0 => Some("in"),
            1 => Some("cm"),
            2 => Some("pt"),
            3 => Some("pc"),
            4 => Some("%"),
            _ => None,
        }
    } else {
        match x {
            0 => Some("0"),
            1 => Some("1"),
            2 => Some("2"),
            3 => Some("3"),
            4 => Some("4"),
            5 => Some("5"),
            6 => Some("6"),
            7 => Some("7"),
            8 => Some("8"),
            9 => Some("9"),
            10 => Some("."),
            11 => Some("-"),
            _ => None,
        }
    }
}

impl DimBuilder {
    fn new() -> (b: DimBuilder)
        ensures
            b@ == dim_start(),
    {
        let b = DimBuilder { out: Vec::new(), text: String::new(), at_unit: true };
        assert(texts_of(b.out@) =~= Seq::<Seq<char>>::empty());
        b
    }

    /// Takes in the nibble `x`.
    fn feed(self, x: u8) -> (r: Option<DimBuilder>)
        ensures
            match dim_nibble(self@, x) {
                Some(st) => r is Some && r->Some_0@ == st,
                None => r is None,
            },
    {
        let mut b = self;
        if !b.at_unit && x == DIMENSION_END {
            proof {
                lemma_texts_of_push(b.out@, b.text);
            }
            b.out.push(b.text);
            b.text = String::new();
            b.at_unit = true;
            Some(b)
        } else {
            match nibble_str(x, b.at_unit) {
                Some(t) => {
                    b.text.append(t);
                    b.at_unit = false;
                    Some(b)
                },
                None => None,
            }
        }
    }
}

/// Reads an array of `size` dimensions of an equation preferences record.
/// Each comes out as the symbol of its unit followed by its number. Where
/// the read fails the cursor stays.
pub fn read_dimension_arrays(cur: &mut Cursor, size: u8) -> (r: Result<Vec<String>, Error>)
    ensures
        match dimensions_at(old(cur).bytes(), old(cur).offset(), size as nat, Site::Record(EQN_PREFS)) {
            Ok((dims, n)) => r is Ok && texts_of(r->Ok_0@) == dims && final(cur).offset() == old(
                cur,
            ).offset() + n,
            Err(e) => r == Err::<Vec<String>, Error>(e) && final(cur).offset() == old(cur).offset(),
        },
        final(cur).bytes() == old(cur).bytes(),
{
    let site = Site::Record(EQN_PREFS);
    let mut c = *cur;
    let mut b = DimBuilder::new();
    while b.out.len() < size as usize
        invariant
            c.bytes() == cur.bytes(),
            c.offset() >= cur.offset(),
            site == Site::Record(EQN_PREFS),
            dimensions_at(cur.bytes(), cur.offset(), size as nat, site) == dimensions_from(
                c.bytes(),
                c.offset(),
                size as nat,
                b@,
                (c.offset() - cur.offset()) as nat,
                site,
            ),
        decreases c.bytes().len() - c.offset(),
    {
        let at = c.position();
        let byte = match c.read_u8(site) {
            Ok(v) => v,
            Err(e) => return Err(e),
        };
        let b1 = match b.feed(byte / 16) {
            Some(v) => v,
            None => return Err(Error::MalformedBuffer { site, offset: at }),
        };
        b = match b1.feed(byte % 16) {
            Some(v) => v,
            None => return Err(Error::MalformedBuffer { site, offset: at }),
        };
    }
    *cur = c;
    Ok(b.out)
}

} // verus!
