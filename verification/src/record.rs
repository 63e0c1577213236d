//! The grammar of the records: what bytes each record type holds, in what
//! order, and what value they stand for.
//!
//! The functions here describe one record at a time and stop where a record
//! opens an object list; [`crate::tree`] puts the lists together.

use vstd::prelude::*;
use crate::constants::{
    CHAR, EQN_PREFS, FONT_DEF, FONT_STYLE_DEF, FULL, LINE, MTEF_OPT_CHAR_EMBELL,
    MTEF_OPT_CHAR_ENC_CHAR_16, MTEF_OPT_CHAR_ENC_CHAR_8, MTEF_OPT_CHAR_ENC_NO_MTCODE,
    MTEF_OPT_CHAR_FUNC_START, MTEF_OPT_LINE_LSPACE, MTEF_OPT_LINE_NULL, MTEF_OPT_NUDGE, SUB,
    SUB2, SUBSYM, SYM, TMPL,
};
use crate::cursor::{bytes_at, u16_le_at, u8_at, Cursor};
use crate::error::{Error, Site};
use crate::node::{
    Character, EquationPrefs, Line, Node, SizeMarker, SpecCharacter, SpecLine, SpecNode,
    SpecPrefs, SpecTemplate, Template,
};
use crate::primitives::{
    dim_start, dimensions_at, lemma_dimensions_in_bounds, length_at, nudge_width,
    optional_nudge_at, read_dimension_arrays, read_length, read_optional_nudge, read_variation,
    variation_at,
};
use crate::options::{has_flag, RecordOptions};
use crate::tables::{FontDef, SpecFontDef};
use crate::text::{read_null_terminated_string, text_at, TextEncoding};

verus! {

/// The byte at `pos` where `present`, and nothing, no byte long, where not.
pub open spec fn optional_u8_at(s: Seq<u8>, pos: int, present: bool, site: Site) -> Result<
    (Option<u8>, nat),
    Error,
> {
    if present {
        match u8_at(s, pos, site) {
            Err(e) => Err(e),
            Ok(v) => Ok((Some(v), 1)),
        }
    } else {
        Ok((None, 0))
    }
}

/// The little-endian 16-bit value at `pos` where `present`, and nothing, no
/// byte long, where not.
pub open spec fn optional_u16_le_at(s: Seq<u8>, pos: int, present: bool, site: Site) -> Result<
    (Option<u16>, nat),
    Error,
> {
    if present {
        match u16_le_at(s, pos, site) {
            Err(e) => Err(e),
            Ok(v) => Ok((Some(v), 2)),
        }
    } else {
        Ok((None, 0))
    }
}

/// The typeface that the byte `b` of a CHAR record stands for: the byte is
/// the typeface biased by 128.
pub open spec fn typeface_of(b: u8) -> i8 {
    (b - 128) as i8
}

/// What a LINE record holds before its object list: the option byte, the
/// nudge if the nudge bit is set, the line spacing if its bit is set. The
/// line comes with no objects yet, and with the number of bytes read.
pub open spec fn line_head_at(s: Seq<u8>, pos: int) -> Result<(SpecLine, nat), Error> {
    let site = Site::Record(LINE);
    match u8_at(s, pos, site) {
        Err(e) => Err(e),
        Ok(options) => match optional_nudge_at(s, pos + 1, options, site) {
            Err(e) => Err(e),
            Ok((nudge, n1)) => match optional_u8_at(
                s,
                pos + 1 + n1,
                has_flag(options, MTEF_OPT_LINE_LSPACE),
                site,
            ) {
                Err(e) => Err(e),
                Ok((line_spacing, n2)) => Ok(
                    (
                        SpecLine {
                            nudge,
                            line_spacing,
                            null: has_flag(options, MTEF_OPT_LINE_NULL),
                            objects: Seq::empty(),
                        },
                        1 + n1 + n2,
                    ),
                ),
            },
        },
    }
}

/// What a CHAR record holds before its embellishment list: the option byte,
/// the nudge if the nudge bit is set, the typeface, the MTCode value unless
/// the record is written without one, the 8-bit and the 16-bit font position
/// if their bits are set. The character comes with no embellishments yet,
/// with the number of bytes read, and with whether an embellishment list
/// follows.
pub open spec fn char_head_at(s: Seq<u8>, pos: int) -> Result<(SpecCharacter, nat, bool), Error> {
    let site = Site::Record(CHAR);
    match u8_at(s, pos, site) {
        Err(e) => Err(e),
        Ok(options) => match optional_nudge_at(s, pos + 1, options, site) {
            Err(e) => Err(e),
            Ok((nudge, n1)) => match u8_at(s, pos + 1 + n1, site) {
                Err(e) => Err(e),
                Ok(face) => match optional_u16_le_at(
                    s,
                    pos + 2 + n1,
                    !has_flag(options, MTEF_OPT_CHAR_ENC_NO_MTCODE),
                    site,
                ) {
                    Err(e) => Err(e),
                    Ok((mtcode, n2)) => match optional_u8_at(
                        s,
                        pos + 2 + n1 + n2,
                        has_flag(options, MTEF_OPT_CHAR_ENC_CHAR_8),
                        site,
                    ) {
                        Err(e) => Err(e),
                        Ok((font_pos8, n3)) => match optional_u16_le_at(
                            s,
                            pos + 2 + n1 + n2 + n3,
                            has_flag(options, MTEF_OPT_CHAR_ENC_CHAR_16),
                            site,
                        ) {
                            Err(e) => Err(e),
                            Ok((font_pos16, n4)) => Ok(
                                (
                                    SpecCharacter {
                                        nudge,
                                        typeface: typeface_of(face),
                                        function_start: has_flag(options, MTEF_OPT_CHAR_FUNC_START),
                                        mtcode,
                                        font_pos8,
                                        font_pos16,
                                        embellishments: Seq::empty(),
                                    },
                                    2 + n1 + n2 + n3 + n4,
                                    has_flag(options, MTEF_OPT_CHAR_EMBELL),
                                ),
                            ),
                        },
                    },
                },
            },
        },
    }
}

/// What a TMPL record holds before its object list: the option byte, the
/// nudge if the nudge bit is set, the selector, the variation, and the
/// template's own option byte. The template comes with no slots yet, and
/// with the number of bytes read.
pub open spec fn tmpl_head_at(s: Seq<u8>, pos: int) -> Result<(SpecTemplate, nat), Error> {
    let site = Site::Record(TMPL);
    match u8_at(s, pos, site) {
        Err(e) => Err(e),
        Ok(options) => match optional_nudge_at(s, pos + 1, options, site) {
            Err(e) => Err(e),
            Ok((nudge, n1)) => match u8_at(s, pos + 1 + n1, site) {
                Err(e) => Err(e),
                Ok(selector) => match variation_at(s, pos + 2 + n1, site) {
                    Err(e) => Err(e),
                    Ok((variation, n2)) => match u8_at(s, pos + 2 + n1 + n2, site) {
                        Err(e) => Err(e),
                        Ok(template_options) => Ok(
                            (
                                SpecTemplate {
                                    nudge,
                                    selector,
                                    variation,
                                    options: template_options,
                                    slots: Seq::empty(),
                                },
                                3 + n1 + n2,
                            ),
                        ),
                    },
                },
            },
        },
    }
}

/// The payload of a FONT_DEF record: the index of an encoding, then the
/// font's name as a null-terminated string.
pub open spec fn font_def_at(s: Seq<u8>, pos: int, encoding: TextEncoding) -> Result<
    (SpecFontDef, nat),
    Error,
> {
    let site = Site::Record(FONT_DEF);
    match u8_at(s, pos, site) {
        Err(e) => Err(e),
        Ok(encoding_index) => match text_at(s, pos + 1, encoding, site) {
            Err(e) => Err(e),
            Ok((name, n)) => Ok((SpecFontDef { encoding_index, name }, 1 + n)),
        },
    }
}

/// The payload of a FONT_STYLE_DEF record: the index of a font definition,
/// then a character style.
pub open spec fn font_style_def_at(s: Seq<u8>, pos: int) -> Result<(SpecNode, nat), Error> {
    let site = Site::Record(FONT_STYLE_DEF);
    match u8_at(s, pos, site) {
        Err(e) => Err(e),
        Ok(font_def_index) => match u8_at(s, pos + 1, site) {
            Err(e) => Err(e),
            Ok(char_style) => Ok((SpecNode::FontStyleDef { font_def_index, char_style }, 2)),
        },
    }
}

/// Decoding of an array of `count` styles, taken up at the byte `pos` after
/// `used` bytes, with the styles in `acc` read. A style is a zero byte, for
/// no style, or a nonzero byte and then the byte of the style's value.
pub open spec fn styles_from(
    s: Seq<u8>,
    pos: int,
    count: nat,
    acc: Seq<Option<u8>>,
    used: nat,
) -> Result<(Seq<Option<u8>>, nat), Error>
    decreases count - acc.len(),
{
    let site = Site::Record(EQN_PREFS);
    if acc.len() >= count {
        Ok((acc, used))
    } else {
        match u8_at(s, pos, site) {
            Err(e) => Err(e),
            Ok(b) => if b == 0 {
                styles_from(s, pos + 1, count, acc.push(None), used + 1)
            } else {
                match u8_at(s, pos + 1, site) {
                    Err(e) => Err(e),
                    Ok(v) => styles_from(s, pos + 2, count, acc.push(Some(v)), used + 2),
                }
            },
        }
    }
}

/// The array of `count` styles at `pos`, and the number of bytes it takes
/// up.
pub open spec fn styles_at(s: Seq<u8>, pos: int, count: nat) -> Result<(Seq<Option<u8>>, nat), Error> {
    styles_from(s, pos, count, Seq::empty(), 0)
}

/// An array of styles lies within the buffer, and holds as many styles as
/// were asked for.
pub proof fn lemma_styles_in_bounds(s: Seq<u8>, pos: int, count: nat, acc: Seq<Option<u8>>, used: nat)
    requires
        acc.len() <= count,
    ensures
        match styles_from(s, pos, count, acc, used) {
            Ok((styles, n)) => {
                &&& n >= used
                &&& n > used ==> 0 <= pos && pos + (n - used) <= s.len()
                &&& styles.len() == count
            },
            Err(e) => e is MalformedBuffer,
        },
    decreases count - acc.len(),
{
    let site = Site::Record(EQN_PREFS);
    if acc.len() < count {
        if let Ok(b) = u8_at(s, pos, site) {
            if b == 0 {
                lemma_styles_in_bounds(s, pos + 1, count, acc.push(None), used + 1);
            } else if let Ok(v) = u8_at(s, pos + 1, site) {
                lemma_styles_in_bounds(s, pos + 2, count, acc.push(Some(v)), used + 2);
            }
        }
    }
}

/// The payload of an EQN_PREFS record: an option byte; the count of the
/// sizes and their array of dimensions; the count of the spaces and their
/// array of dimensions; the count of the styles and their array.
pub open spec fn prefs_at(s: Seq<u8>, pos: int) -> Result<(SpecPrefs, nat), Error> {
    let site = Site::Record(EQN_PREFS);
    match u8_at(s, pos, site) {
        Err(e) => Err(e),
        Ok(options) => match u8_at(s, pos + 1, site) {
            Err(e) => Err(e),
            Ok(size_count) => match dimensions_at(s, pos + 2, size_count as nat, site) {
                Err(e) => Err(e),
                Ok((sizes, n1)) => match u8_at(s, pos + 2 + n1, site) {
                    Err(e) => Err(e),
                    Ok(space_count) => match dimensions_at(
                        s,
                        pos + 3 + n1,
                        space_count as nat,
                        site,
                    ) {
                        Err(e) => Err(e),
                        Ok((spaces, n2)) => match u8_at(s, pos + 3 + n1 + n2, site) {
                            Err(e) => Err(e),
                            Ok(style_count) => match styles_at(
                                s,
                                pos + 4 + n1 + n2,
                                style_count as nat,
                            ) {
                                Err(e) => Err(e),
                                Ok((styles, n3)) => Ok(
                                    (SpecPrefs { options, sizes, spaces, styles }, 4 + n1 + n2 + n3),
                                ),
                            },
                        },
                    },
                },
            },
        },
    }
}

/// The payload of an EQN_PREFS record lies within the buffer.
pub proof fn lemma_prefs_in_bounds(s: Seq<u8>, pos: int)
    requires
        0 <= pos,
    ensures
        match prefs_at(s, pos) {
            Ok((prefs, n)) => pos + n <= s.len(),
            Err(_) => true,
        },
{
    let site = Site::Record(EQN_PREFS);
    if let Ok(size_count) = u8_at(s, pos + 1, site) {
        lemma_dimensions_in_bounds(s, pos + 2, size_count as nat, dim_start(), 0, site);
        if let Ok((sizes, n1)) = dimensions_at(s, pos + 2, size_count as nat, site) {
            if let Ok(space_count) = u8_at(s, pos + 2 + n1, site) {
                lemma_dimensions_in_bounds(s, pos + 3 + n1, space_count as nat, dim_start(), 0, site);
                if let Ok((spaces, n2)) = dimensions_at(s, pos + 3 + n1, space_count as nat, site) {
                    if let Ok(style_count) = u8_at(s, pos + 3 + n1 + n2, site) {
                        lemma_styles_in_bounds(
                            s,
                            pos + 4 + n1 + n2,
                            style_count as nat,
                            Seq::empty(),
                            0,
                        );
                    }
                }
            }
        }
    }
}

/// The payload of a record of the future type `tag`: its length, then that
/// many bytes, which are carried and not interpreted.
pub open spec fn future_at(s: Seq<u8>, pos: int, tag: u8) -> Result<(SpecNode, nat), Error> {
    let site = Site::Record(tag);
    match length_at(s, pos, site) {
        Err(e) => Err(e),
        Ok((len, n)) => match bytes_at(s, pos + n, len as nat, site) {
            Err(e) => Err(e),
            Ok(payload) => Ok((SpecNode::Future { tag, payload }, n + len as nat)),
        },
    }
}

/// The size that a marker record of type `tag` selects; `None` for the tag
/// of another record.
pub open spec fn size_marker_of(tag: u8) -> Option<SizeMarker> {
    if tag == FULL {
        Some(SizeMarker::Full)
    } else if tag == SUB {
        Some(SizeMarker::Sub)
    } else if tag == SUB2 {
        Some(SizeMarker::Sub2)
    } else if tag == SYM {
        Some(SizeMarker::Sym)
    } else if tag == SUBSYM {
        Some(SizeMarker::SubSym)
    } else {
        None
    }
}

/// A CHAR record carries an MTCode value exactly if it is not written
/// without one, whatever its bits for the 8-bit and 16-bit font positions
/// say; and it carries each font position exactly if that position's bit is
/// set.
pub proof fn lemma_char_identity(s: Seq<u8>, pos: int)
    ensures
        match char_head_at(s, pos) {
            Ok((c, n, embellished)) => {
                &&& c.mtcode is Some <==> !has_flag(s[pos], MTEF_OPT_CHAR_ENC_NO_MTCODE)
                &&& c.font_pos8 is Some <==> has_flag(s[pos], MTEF_OPT_CHAR_ENC_CHAR_8)
                &&& c.font_pos16 is Some <==> has_flag(s[pos], MTEF_OPT_CHAR_ENC_CHAR_16)
                &&& embellished <==> has_flag(s[pos], MTEF_OPT_CHAR_EMBELL)
            },
            Err(e) => e is MalformedBuffer,
        },
{
}

/// In each record that can carry a nudge, the nudge takes up no byte where
/// the record's nudge bit is clear, and two or four bytes where it is set;
/// the other fields take up what their option bits say.
pub proof fn lemma_nudge_of_record(s: Seq<u8>, pos: int)
    ensures
        line_head_at(s, pos) matches Ok((line, n)) ==> {
            &&& line.nudge is Some <==> has_flag(s[pos], MTEF_OPT_NUDGE)
            &&& n == 1 + nudge_width(s, pos + 1, s[pos]) + (if line.line_spacing is Some {
                1nat
            } else {
                0
            })
        },
        char_head_at(s, pos) matches Ok((c, n, embellished)) ==> {
            &&& c.nudge is Some <==> has_flag(s[pos], MTEF_OPT_NUDGE)
            &&& n == 2 + nudge_width(s, pos + 1, s[pos]) + (if c.mtcode is Some {
                2nat
            } else {
                0
            }) + (if c.font_pos8 is Some {
                1nat
            } else {
                0
            }) + (if c.font_pos16 is Some {
                2nat
            } else {
                0
            })
        },
        tmpl_head_at(s, pos) matches Ok((t, n)) ==> {
            &&& t.nudge is Some <==> has_flag(s[pos], MTEF_OPT_NUDGE)
            &&& n == 3 + nudge_width(s, pos + 1, s[pos]) + 1 || n == 3 + nudge_width(
                s,
                pos + 1,
                s[pos],
            ) + 2
        },
{
}

/// Reads a byte where `present`.
fn read_optional_u8(cur: &mut Cursor, present: bool, site: Site) -> (r: Result<Option<u8>, Error>)
    ensures
        match optional_u8_at(old(cur).bytes(), old(cur).offset(), present, site) {
            Ok((v, n)) => r == Ok::<Option<u8>, Error>(v) && final(cur).offset() == old(
                cur,
            ).offset() + n,
            Err(e) => r == Err::<Option<u8>, Error>(e) && final(cur).offset() == old(cur).offset(),
        },
        final(cur).bytes() == old(cur).bytes(),
{
    if present {
        match cur.read_u8(site) {
            Ok(v) => Ok(Some(v)),
            Err(e) => Err(e),
        }
    } else {
        Ok(None)
    }
}

/// Reads a little-endian 16-bit value where `present`.
fn read_optional_u16_le(cur: &mut Cursor, present: bool, site: Site) -> (r: Result<
    Option<u16>,
    Error,
>)
    ensures
        match optional_u16_le_at(old(cur).bytes(), old(cur).offset(), present, site) {
            Ok((v, n)) => r == Ok::<Option<u16>, Error>(v) && final(cur).offset() == old(
                cur,
            ).offset() + n,
            Err(e) => r == Err::<Option<u16>, Error>(e) && final(cur).offset() == old(
                cur,
            ).offset(),
        },
        final(cur).bytes() == old(cur).bytes(),
{
    if present {
        match cur.read_u16_le(site) {
            Ok(v) => Ok(Some(v)),
            Err(e) => Err(e),
        }
    } else {
        Ok(None)
    }
}

/// Reads what a LINE record holds before its object list. Where the read
/// fails the cursor stays.
pub fn read_line_head(cur: &mut Cursor) -> (r: Result<Line, Error>)
    ensures
        match line_head_at(old(cur).bytes(), old(cur).offset()) {
            Ok((line, n)) => r is Ok && r->Ok_0@ == line && final(cur).offset() == old(
                cur,
            ).offset() + n,
            Err(e) => r is Err && r->Err_0 == e && final(cur).offset() == old(cur).offset(),
        },
        final(cur).bytes() == old(cur).bytes(),
{
    let site = Site::Record(LINE);
    let mut c = *cur;
    let options = match c.read_u8(site) {
        Ok(v) => RecordOptions::new(v),
        Err(e) => return Err(e),
    };
    let nudge = match read_optional_nudge(&mut c, options, site) {
        Ok(v) => v,
        Err(e) => return Err(e),
    };
    let line_spacing = match read_optional_u8(&mut c, options.line_lspace(), site) {
        Ok(v) => v,
        Err(e) => return Err(e),
    };
    *cur = c;
    let line = Line {
        nudge,
        line_spacing,
        null: options.line_null(),
        objects: Vec::new(),
    };
    assert(line@.objects =~= Seq::empty());
    Ok(line)
}

/// Reads what a CHAR record holds before its embellishment list, and tells
/// whether such a list follows. Where the read fails the cursor stays.
pub fn read_char_head(cur: &mut Cursor) -> (r: Result<(Character, bool), Error>)
    ensures
        match char_head_at(old(cur).bytes(), old(cur).offset()) {
            Ok((c, n, embellished)) => r is Ok && r->Ok_0.0@ == c && r->Ok_0.1 == embellished
                && final(cur).offset() == old(cur).offset() + n,
            Err(e) => r is Err && r->Err_0 == e && final(cur).offset() == old(cur).offset(),
        },
        final(cur).bytes() == old(cur).bytes(),
{
    let site = Site::Record(CHAR);
    let mut c = *cur;
    let options = match c.read_u8(site) {
        Ok(v) => RecordOptions::new(v),
        Err(e) => return Err(e),
    };
    let nudge = match read_optional_nudge(&mut c, options, site) {
        Ok(v) => v,
        Err(e) => return Err(e),
    };
    let face = match c.read_u8(site) {
        Ok(v) => v,
        Err(e) => return Err(e),
    };
    let mtcode = match read_optional_u16_le(
        &mut c,
        !options.char_enc_no_mtcode(),
        site,
    ) {
        Ok(v) => v,
        Err(e) => return Err(e),
    };
    let font_pos8 = match read_optional_u8(&mut c, options.char_enc_char_8(), site) {
        Ok(v) => v,
        Err(e) => return Err(e),
    };
    let font_pos16 = match read_optional_u16_le(
        &mut c,
        options.char_enc_char_16(),
        site,
    ) {
        Ok(v) => v,
        Err(e) => return Err(e),
    };
    *cur = c;
    let character = Character {
        nudge,
        typeface: (face as i16 - 128) as i8,
        function_start: options.char_func_start(),
        mtcode,
        font_pos8,
        font_pos16,
        embellishments: Vec::new(),
    };
    assert(character@.embellishments =~= Seq::empty());
    Ok((character, options.char_embell()))
}

/// Reads what a TMPL record holds before its object list. Where the read
/// fails the cursor stays.
pub fn read_tmpl_head(cur: &mut Cursor) -> (r: Result<Template, Error>)
    ensures
        match tmpl_head_at(old(cur).bytes(), old(cur).offset()) {
            Ok((t, n)) => r is Ok && r->Ok_0@ == t && final(cur).offset() == old(cur).offset() + n,
            Err(e) => r is Err && r->Err_0 == e && final(cur).offset() == old(cur).offset(),
        },
        final(cur).bytes() == old(cur).bytes(),
{
    let site = Site::Record(TMPL);
    let mut c = *cur;
    let options = match c.read_u8(site) {
        Ok(v) => RecordOptions::new(v),
        Err(e) => return Err(e),
    };
    let nudge = match read_optional_nudge(&mut c, options, site) {
        Ok(v) => v,
        Err(e) => return Err(e),
    };
    let selector = match c.read_u8(site) {
        Ok(v) => v,
        Err(e) => return Err(e),
    };
    let variation = match read_variation(&mut c, site) {
        Ok(v) => v,
        Err(e) => return Err(e),
    };
    let template_options = match c.read_u8(site) {
        Ok(v) => v,
        Err(e) => return Err(e),
    };
    *cur = c;
    let template = Template { nudge, selector, variation, options: template_options, slots: Vec::new() };
    assert(template@.slots =~= Seq::empty());
    Ok(template)
}

/// Reads the payload of a FONT_DEF record. Where the read fails the cursor
/// stays.
pub fn read_font_def(cur: &mut Cursor, encoding: TextEncoding) -> (r: Result<FontDef, Error>)
    ensures
        match font_def_at(old(cur).bytes(), old(cur).offset(), encoding) {
            Ok((font, n)) => r is Ok && r->Ok_0@ == font && final(cur).offset() == old(
                cur,
            ).offset() + n,
            Err(e) => r is Err && r->Err_0 == e && final(cur).offset() == old(cur).offset(),
        },
        final(cur).bytes() == old(cur).bytes(),
{
    let site = Site::Record(FONT_DEF);
    let mut c = *cur;
    let encoding_index = match c.read_u8(site) {
        Ok(v) => v,
        Err(e) => return Err(e),
    };
    let name = match read_null_terminated_string(&mut c, encoding, site) {
        Ok(v) => v,
        Err(e) => return Err(e),
    };
    *cur = c;
    Ok(FontDef { encoding_index, name })
}

/// Reads the payload of a FONT_STYLE_DEF record. Where the read fails the
/// cursor stays.
pub fn read_font_style_def(cur: &mut Cursor) -> (r: Result<Node, Error>)
    ensures
        match font_style_def_at(old(cur).bytes(), old(cur).offset()) {
            Ok((node, n)) => r is Ok && r->Ok_0@ == node && final(cur).offset() == old(
                cur,
            ).offset() + n,
            Err(e) => r is Err && r->Err_0 == e && final(cur).offset() == old(cur).offset(),
        },
        final(cur).bytes() == old(cur).bytes(),
{
    let site = Site::Record(FONT_STYLE_DEF);
    let mut c = *cur;
    let font_def_index = match c.read_u8(site) {
        Ok(v) => v,
        Err(e) => return Err(e),
    };
    let char_style = match c.read_u8(site) {
        Ok(v) => v,
        Err(e) => return Err(e),
    };
    *cur = c;
    Ok(Node::FontStyleDef { font_def_index, char_style })
}

/// Reads an array of `count` styles of an EQN_PREFS record. Where the read
/// fails the cursor stays.
pub fn read_styles(cur: &mut Cursor, count: u8) -> (r: Result<Vec<Option<u8>>, Error>)
    ensures
        match styles_at(old(cur).bytes(), old(cur).offset(), count as nat) {
            Ok((styles, n)) => r is Ok && r->Ok_0@ == styles && final(cur).offset() == old(
                cur,
            ).offset() + n,
            Err(e) => r is Err && r->Err_0 == e && final(cur).offset() == old(cur).offset(),
        },
        final(cur).bytes() == old(cur).bytes(),
{
    let site = Site::Record(EQN_PREFS);
    let mut c = *cur;
    let mut styles: Vec<Option<u8>> = Vec::new();
    while styles.len() < count as usize
        invariant
            c.bytes() == cur.bytes(),
            c.offset() >= cur.offset(),
            site == Site::Record(EQN_PREFS),
            styles_at(cur.bytes(), cur.offset(), count as nat) == styles_from(
                c.bytes(),
                c.offset(),
                count as nat,
                styles@,
                (c.offset() - cur.offset()) as nat,
            ),
        decreases count - styles.len(),
    {
        let b = match c.read_u8(site) {
            Ok(v) => v,
            Err(e) => return Err(e),
        };
        if b == 0 {
            styles.push(None);
        } else {
            let v = match c.read_u8(site) {
                Ok(v) => v,
                Err(e) => return Err(e),
            };
            styles.push(Some(v));
        }
    }
    *cur = c;
    Ok(styles)
}

/// Reads the payload of an EQN_PREFS record. Where the read fails the
/// cursor stays.
pub fn read_prefs(cur: &mut Cursor) -> (r: Result<EquationPrefs, Error>)
    ensures
        match prefs_at(old(cur).bytes(), old(cur).offset()) {
            Ok((prefs, n)) => r is Ok && r->Ok_0@ == prefs && final(cur).offset() == old(
                cur,
            ).offset() + n,
            Err(e) => r is Err && r->Err_0 == e && final(cur).offset() == old(cur).offset(),
        },
        final(cur).bytes() == old(cur).bytes(),
{
    let site = Site::Record(EQN_PREFS);
    let mut c = *cur;
    let options = match c.read_u8(site) {
        Ok(v) => v,
        Err(e) => return Err(e),
    };
    let size_count = match c.read_u8(site) {
        Ok(v) => v,
        Err(e) => return Err(e),
    };
    let sizes = match read_dimension_arrays(&mut c, size_count) {
        Ok(v) => v,
        Err(e) => return Err(e),
    };
    let space_count = match c.read_u8(site) {
        Ok(v) => v,
        Err(e) => return Err(e),
    };
    let spaces = match read_dimension_arrays(&mut c, space_count) {
        Ok(v) => v,
        Err(e) => return Err(e),
    };
    let style_count = match c.read_u8(site) {
        Ok(v) => v,
        Err(e) => return Err(e),
    };
    let styles = match read_styles(&mut c, style_count) {
        Ok(v) => v,
        Err(e) => return Err(e),
    };
    *cur = c;
    Ok(EquationPrefs { options, sizes, spaces, styles })
}

/// Reads the payload of a record of the future type `tag`. Where the read
/// fails the cursor stays.
pub fn read_future(cur: &mut Cursor, tag: u8) -> (r: Result<Node, Error>)
    ensures
        match future_at(old(cur).bytes(), old(cur).offset(), tag) {
            Ok((node, n)) => r is Ok && r->Ok_0@ == node && final(cur).offset() == old(
                cur,
            ).offset() + n,
            Err(e) => r is Err && r->Err_0 == e && final(cur).offset() == old(cur).offset(),
        },
        final(cur).bytes() == old(cur).bytes(),
{
    let site = Site::Record(tag);
    let mut c = *cur;
    let len = match read_length(&mut c, site) {
        Ok(v) => v,
        Err(e) => return Err(e),
    };
    let payload = match c.read_bytes(len, site) {
        Ok(v) => v,
        Err(e) => return Err(e),
    };
    *cur = c;
    Ok(Node::Future { tag, payload })
}

/// The size that a marker record of type `tag` selects.
pub fn size_marker(tag: u8) -> (r: Option<SizeMarker>)
    ensures
        r == size_marker_of(tag),
{
    if tag == FULL {
        Some(SizeMarker::Full)
    } else if tag == SUB {
        Some(SizeMarker::Sub)
    } else if tag == SUB2 {
        Some(SizeMarker::Sub2)
    } else if tag == SYM {
        Some(SizeMarker::Sym)
    } else if tag == SUBSYM {
        Some(SizeMarker::SubSym)
    } else {
        None
    }
}

} // verus!
