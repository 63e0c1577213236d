//! The record decoder and the tree builder: from the records of a stream to
//! nested object lists.
//!
//! An object list is the run of records up to its END. A LINE, a TMPL and a
//! CHAR with an embellishment list each open a list of their own, one level
//! deeper than the list they stand in. A LINE opens its list whether or not
//! it is a placeholder. Encoding and font definitions, at
//! whatever depth they stand, leave no node: they go to the definition
//! tables, in stream order.

use vstd::prelude::*;
use crate::constants::{
    CHAR, ENCODING_DEF, END, EQN_PREFS, FONT_DEF, FONT_STYLE_DEF, FUTURE, LINE, TMPL,
};
use crate::cursor::{lemma_nul_distance, Cursor};
use crate::error::{Error, Site};
use crate::node::{
    lemma_nodes_view_push, nodes_view, Node, SpecCharacter, SpecLine, SpecNode, SpecTemplate,
};
use crate::record::{
    char_head_at, font_def_at, font_style_def_at, future_at, lemma_prefs_in_bounds, line_head_at,
    prefs_at, read_char_head, read_font_def, read_font_style_def, read_future, read_line_head,
    read_prefs, read_tmpl_head, size_marker, size_marker_of, tmpl_head_at,
};
use crate::tables::{DefinitionTables, FontDef, SpecFontDef, SpecTables};
use crate::text::{read_null_terminated_string, text_at, TextEncoding};

verus! {

/// The depth bound of [`DecodeOptions::default`].
pub const DEFAULT_MAX_DEPTH: usize = 64;

/// The choices of a decode.
#[derive(Debug, Clone, Copy, PartialEq, Eq)]
pub struct DecodeOptions {
    /// How deep object lists may nest. The root list has depth 0; a list
    /// that a record of a list of depth `d` opens has depth `d + 1`.
    pub max_depth: usize,
    /// The encoding of the strings in the stream.
    pub encoding: TextEncoding,
}

impl Default for DecodeOptions {
    /// Lists up to `DEFAULT_MAX_DEPTH` deep, strings in GBK.
    fn default() -> (options: DecodeOptions)
        ensures
            options == (DecodeOptions { max_depth: DEFAULT_MAX_DEPTH, encoding: TextEncoding::Gbk }),
    {
        DecodeOptions { max_depth: DEFAULT_MAX_DEPTH, encoding: TextEncoding::Gbk }
    }
}

/// What one record decodes to.
#[derive(Debug, PartialEq, Eq)]
pub enum Record {
    /// The end of an object list.
    End,
    /// A node of the tree, with the object list that it owns.
    Node(Node),
    /// The definition of an encoding, by name.
    EncodingDef(String),
    /// The definition of a font.
    FontDef(FontDef),
}

/// The model of a [`Record`].
pub enum SpecRecord {
    End,
    Node(SpecNode),
    EncodingDef(Seq<char>),
    FontDef(SpecFontDef),
}

impl View for Record {
    type V = SpecRecord;

    open spec fn view(&self) -> SpecRecord {
        match *self {
            Record::End => SpecRecord::End,
            Record::Node(n) => SpecRecord::Node(n@),
            Record::EncodingDef(name) => SpecRecord::EncodingDef(name@),
            Record::FontDef(font) => SpecRecord::FontDef(font@),
        }
    }
}

/// The number of bytes from `pos` to the end of `s`.
pub open spec fn bytes_left(s: Seq<u8>, pos: int) -> nat {
    if 0 <= pos <= s.len() {
        (s.len() - pos) as nat
    } else {
        0
    }
}

/// The object list at `pos`, read on after `used` bytes with the nodes in
/// `acc` found and the tables at `tables`: its nodes, the number of bytes it
/// takes up, its END included, and the tables after it.
///
/// A list ends at its END. The root list ends where the buffer ends, too;
/// any other list that the buffer's end leaves open is an error.
pub open spec fn list_from(
    s: Seq<u8>,
    pos: int,
    tables: SpecTables,
    acc: Seq<SpecNode>,
    used: nat,
    depth: nat,
    options: DecodeOptions,
    root: bool,
) -> Result<(Seq<SpecNode>, nat, SpecTables), Error>
    decreases bytes_left(s, pos), 0nat,
{
    if pos < 0 || pos >= s.len() {
        if root {
            Ok((acc, used, tables))
        } else {
            Err(Error::MalformedBuffer { site: Site::ObjectList, offset: pos as usize })
        }
    } else {
        match record_at(s, pos + 1, s[pos], tables, depth, options) {
            Err(e) => Err(e),
            Ok((record, n, t)) => match record {
                SpecRecord::End => Ok((acc, used + 1, t)),
                SpecRecord::Node(node) => list_from(
                    s,
                    pos + 1 + n,
                    t,
                    acc.push(node),
                    used + 1 + n,
                    depth,
                    options,
                    root,
                ),
                SpecRecord::EncodingDef(name) => list_from(
                    s,
                    pos + 1 + n,
                    t.with_encoding(name),
                    acc,
                    used + 1 + n,
                    depth,
                    options,
                    root,
                ),
                SpecRecord::FontDef(font) => list_from(
                    s,
                    pos + 1 + n,
                    t.with_font(font),
                    acc,
                    used + 1 + n,
                    depth,
                    options,
                    root,
                ),
            },
        }
    }
}

/// The object list at `pos` that a record of type `tag` opens in a list of
/// depth `depth`. The record's tag byte stands at `tag_pos`.
pub open spec fn nested_list_at(
    s: Seq<u8>,
    pos: int,
    tables: SpecTables,
    depth: nat,
    options: DecodeOptions,
    tag: u8,
    tag_pos: int,
) -> Result<(Seq<SpecNode>, nat, SpecTables), Error>
    decreases bytes_left(s, pos), 1nat,
{
    if depth >= options.max_depth {
        Err(Error::NestingOverflow { tag, offset: tag_pos as usize })
    } else {
        list_from(s, pos, tables, Seq::empty(), 0, depth + 1, options, false)
    }
}

/// The record of type `tag` whose payload starts at `pos`, in a list of
/// depth `depth`: what it decodes to, the number of bytes of its payload,
/// the object list that it owns included, and the tables after it.
pub open spec fn record_at(
    s: Seq<u8>,
    pos: int,
    tag: u8,
    tables: SpecTables,
    depth: nat,
    options: DecodeOptions,
) -> Result<(SpecRecord, nat, SpecTables), Error>
    decreases bytes_left(s, pos), 2nat,
{
    if tag == END {
        Ok((SpecRecord::End, 0, tables))
    } else if tag == LINE {
        match line_head_at(s, pos) {
            Err(e) => Err(e),
            Ok((head, n)) => match nested_list_at(s, pos + n, tables, depth, options, tag, pos - 1) {
                Err(e) => Err(e),
                Ok((objects, m, t)) => Ok(
                    (SpecRecord::Node(SpecNode::Line(SpecLine { objects, ..head })), n + m, t),
                ),
            },
        }
    } else if tag == CHAR {
        match char_head_at(s, pos) {
            Err(e) => Err(e),
            Ok((head, n, embellished)) => if embellished {
                match nested_list_at(s, pos + n, tables, depth, options, tag, pos - 1) {
                    Err(e) => Err(e),
                    Ok((embellishments, m, t)) => Ok(
                        (
                            SpecRecord::Node(SpecNode::Char(SpecCharacter { embellishments, ..head })),
                            n + m,
                            t,
                        ),
                    ),
                }
            } else {
                Ok((SpecRecord::Node(SpecNode::Char(head)), n, tables))
            },
        }
    } else if tag == TMPL {
        match tmpl_head_at(s, pos) {
            Err(e) => Err(e),
            Ok((head, n)) => match nested_list_at(s, pos + n, tables, depth, options, tag, pos - 1) {
                Err(e) => Err(e),
                Ok((slots, m, t)) => Ok(
                    (SpecRecord::Node(SpecNode::Tmpl(SpecTemplate { slots, ..head })), n + m, t),
                ),
            },
        }
    } else if tag == FONT_STYLE_DEF {
        match font_style_def_at(s, pos) {
            Err(e) => Err(e),
            Ok((node, n)) => Ok((SpecRecord::Node(node), n, tables)),
        }
    } else if size_marker_of(tag) is Some {
        Ok((SpecRecord::Node(SpecNode::Size(size_marker_of(tag)->Some_0)), 0, tables))
    } else if tag == FONT_DEF {
        match font_def_at(s, pos, options.encoding) {
            Err(e) => Err(e),
            Ok((font, n)) => Ok((SpecRecord::FontDef(font), n, tables)),
        }
    } else if tag == EQN_PREFS {
        match prefs_at(s, pos) {
            Err(e) => Err(e),
            Ok((prefs, n)) => Ok((SpecRecord::Node(SpecNode::EqnPrefs(prefs)), n, tables)),
        }
    } else if tag == ENCODING_DEF {
        match text_at(s, pos, options.encoding, Site::Record(ENCODING_DEF)) {
            Err(e) => Err(e),
            Ok((name, n)) => Ok((SpecRecord::EncodingDef(name), n, tables)),
        }
    } else if tag >= FUTURE {
        match future_at(s, pos, tag) {
            Err(e) => Err(e),
            Ok((node, n)) => Ok((SpecRecord::Node(node), n, tables)),
        }
    } else {
        Err(Error::UnsupportedRecord { tag, offset: (pos - 1) as usize })
    }
}

/// The object list at `pos`, of depth `depth`: its nodes, the number of
/// bytes it takes up, its END included, and the tables after it.
pub open spec fn list_at(
    s: Seq<u8>,
    pos: int,
    tables: SpecTables,
    depth: nat,
    options: DecodeOptions,
    root: bool,
) -> Result<(Seq<SpecNode>, nat, SpecTables), Error> {
    list_from(s, pos, tables, Seq::empty(), 0, depth, options, root)
}

/// Whether the list that takes up the `n` bytes from `pos` is closed: its
/// last byte is its END, unless it is the root list and takes up the rest of
/// the buffer.
pub open spec fn list_is_closed(s: Seq<u8>, pos: int, n: nat, root: bool) -> bool {
    &&& 0 <= pos
    &&& pos + n <= s.len()
    &&& {
        ||| n >= 1 && s[pos + n - 1] == END
        ||| root && pos + n == s.len()
    }
}

/// A record that decodes lies within the buffer, only END decodes to the end
/// of a list, and the tables after the record hold every definition that
/// they held before it, at the same index.
pub proof fn lemma_record_is_sound(
    s: Seq<u8>,
    pos: int,
    tag: u8,
    tables: SpecTables,
    depth: nat,
    options: DecodeOptions,
)
    requires
        0 <= pos <= s.len(),
    ensures
        match record_at(s, pos, tag, tables, depth, options) {
            Ok((record, n, t)) => {
                &&& pos + n <= s.len()
                &&& tables.grows_to(t)
                &&& record is End <==> tag == END
            },
            Err(_) => true,
        },
    decreases bytes_left(s, pos), 2nat,
{
    if tag == LINE {
        if let Ok((head, n)) = line_head_at(s, pos) {
            lemma_nested_list_is_sound(s, pos + n, tables, depth, options, tag, pos - 1);
        }
    } else if tag == CHAR {
        if let Ok((head, n, embellished)) = char_head_at(s, pos) {
            if embellished {
                lemma_nested_list_is_sound(s, pos + n, tables, depth, options, tag, pos - 1);
            }
        }
    } else if tag == TMPL {
        if let Ok((head, n)) = tmpl_head_at(s, pos) {
            lemma_nested_list_is_sound(s, pos + n, tables, depth, options, tag, pos - 1);
        }
    } else if tag == FONT_DEF {
        lemma_nul_distance(s, pos + 1);
    } else if tag == ENCODING_DEF {
        lemma_nul_distance(s, pos);
    } else if tag == EQN_PREFS {
        lemma_prefs_in_bounds(s, pos);
    }
}

/// The object list of a record, where it decodes, is closed by its END and
/// lies within the buffer, and the tables only grow over it.
pub proof fn lemma_nested_list_is_sound(
    s: Seq<u8>,
    pos: int,
    tables: SpecTables,
    depth: nat,
    options: DecodeOptions,
    tag: u8,
    tag_pos: int,
)
    requires
        0 <= pos <= s.len(),
    ensures
        match nested_list_at(s, pos, tables, depth, options, tag, tag_pos) {
            Ok((nodes, n, t)) => list_is_closed(s, pos, n, false) && tables.grows_to(t),
            Err(_) => true,
        },
    decreases bytes_left(s, pos), 1nat,
{
    if depth < options.max_depth {
        lemma_list_is_sound(s, pos, tables, Seq::empty(), 0, (depth + 1) as nat, options, false);
    }
}

/// An object list that decodes is closed: the bytes it takes up lie within
/// the buffer and end with the list's END, or, for the root list, with the
/// buffer. Its nodes come after those found before, and the tables after it
/// hold every definition that they held before it, at the same index.
pub proof fn lemma_list_is_sound(
    s: Seq<u8>,
    pos: int,
    tables: SpecTables,
    acc: Seq<SpecNode>,
    used: nat,
    depth: nat,
    options: DecodeOptions,
    root: bool,
)
    requires
        0 <= pos - used,
        pos <= s.len(),
    ensures
        match list_from(s, pos, tables, acc, used, depth, options, root) {
            Ok((nodes, n, t)) => {
                &&& n >= used
                &&& list_is_closed(s, pos - used, n, root)
                &&& acc.is_prefix_of(nodes)
                &&& tables.grows_to(t)
            },
            Err(_) => true,
        },
    decreases bytes_left(s, pos), 0nat,
{
    if pos < s.len() {
        lemma_record_is_sound(s, pos + 1, s[pos], tables, depth, options);
        if let Ok((record, n, t)) = record_at(s, pos + 1, s[pos], tables, depth, options) {
            let next = match record {
                SpecRecord::EncodingDef(name) => t.with_encoding(name),
                SpecRecord::FontDef(font) => t.with_font(font),
                _ => t,
            };
            let found = match record {
                SpecRecord::Node(node) => acc.push(node),
                _ => acc,
            };
            if !(record is End) {
                lemma_list_is_sound(s, pos + 1 + n, next, found, used + 1 + n, depth, options, root);
            }
        }
    }
}

/// Where the buffer ends before the END of a list that is not the root
/// list, decoding fails: the buffer is malformed at its end. The root list
/// ends there without error.
pub proof fn lemma_open_list_is_malformed(
    s: Seq<u8>,
    pos: int,
    tables: SpecTables,
    acc: Seq<SpecNode>,
    used: nat,
    depth: nat,
    options: DecodeOptions,
)
    requires
        pos >= s.len(),
    ensures
        list_from(s, pos, tables, acc, used, depth, options, false) == Err::<
            (Seq<SpecNode>, nat, SpecTables),
            Error,
        >(Error::MalformedBuffer { site: Site::ObjectList, offset: pos as usize }),
        list_from(s, pos, tables, acc, used, depth, options, true) == Ok::<
            (Seq<SpecNode>, nat, SpecTables),
            Error,
        >((acc, used, tables)),
{
}

/// Opens the object list of a record of type `tag` in a list of depth
/// `depth`, and decodes it. Fails where the list would lie deeper than the
/// bound. Where it fails the cursor stays.
fn decode_nested_list(
    cur: &mut Cursor,
    tables: DefinitionTables,
    depth: usize,
    options: &DecodeOptions,
    tag: u8,
    tag_pos: usize,
) -> (r: Result<(Vec<Node>, DefinitionTables), Error>)
    ensures
        match nested_list_at(
            old(cur).bytes(),
            old(cur).offset(),
            tables@,
            depth as nat,
            *options,
            tag,
            tag_pos as int,
        ) {
            Ok((nodes, n, t)) => {
                &&& r is Ok
                &&& nodes_view(r->Ok_0.0@) == nodes
                &&& r->Ok_0.1@ == t
                &&& final(cur).offset() == old(cur).offset() + n
                &&& tables@.grows_to(t)
                &&& list_is_closed(old(cur).bytes(), old(cur).offset(), n, false)
            },
            Err(e) => r is Err && r->Err_0 == e && final(cur).offset() == old(cur).offset(),
        },
        final(cur).bytes() == old(cur).bytes(),
    decreases bytes_left(old(cur).bytes(), old(cur).offset()), 1nat,
{
    if depth >= options.max_depth {
        Err(Error::NestingOverflow { tag, offset: tag_pos })
    } else {
        decode_object_list(cur, tables, depth + 1, options, false)
    }
}

/// Decodes the record of type `tag`, whose tag byte the cursor has just
/// passed, in a list of depth `depth`: the payload of the record and, for a
/// record that owns an object list, that list. Definitions in that list go
/// to `tables`, which come back as they stand after the record.
///
/// The cursor comes to rest on the first byte after the record; where the
/// record cannot be decoded, the cursor stays.
pub fn decode_record(
    tag: u8,
    cur: &mut Cursor,
    tables: DefinitionTables,
    depth: usize,
    options: &DecodeOptions,
) -> (r: Result<(Record, DefinitionTables), Error>)
    requires
        old(cur).offset() >= 1,
        old(cur).bytes()[old(cur).offset() - 1] == tag,
    ensures
        match record_at(old(cur).bytes(), old(cur).offset(), tag, tables@, depth as nat, *options) {
            Ok((record, n, t)) => {
                &&& r is Ok
                &&& r->Ok_0.0@ == record
                &&& r->Ok_0.1@ == t
                &&& final(cur).offset() == old(cur).offset() + n
                &&& tables@.grows_to(t)
            },
            Err(e) => r is Err && r->Err_0 == e && final(cur).offset() == old(cur).offset(),
        },
        final(cur).bytes() == old(cur).bytes(),
    decreases bytes_left(old(cur).bytes(), old(cur).offset()), 2nat,
{
    let start = cur.position();
    if tag == END {
        Ok((Record::End, tables))
    } else if tag == LINE {
        let mut c = *cur;
        let mut line = match read_line_head(&mut c) {
            Ok(v) => v,
            Err(e) => return Err(e),
        };
        let (objects, tables) = match decode_nested_list(&mut c, tables, depth, options, tag, start - 1) {
            Ok(v) => v,
            Err(e) => return Err(e),
        };
        line.objects = objects;
        *cur = c;
        Ok((Record::Node(Node::Line(line)), tables))
    } else if tag == CHAR {
        let mut c = *cur;
        let (mut character, embellished) = match read_char_head(&mut c) {
            Ok(v) => v,
            Err(e) => return Err(e),
        };
        if embellished {
            let (embellishments, tables) = match decode_nested_list(
                &mut c,
                tables,
                depth,
                options,
                tag,
                start - 1,
            ) {
                Ok(v) => v,
                Err(e) => return Err(e),
            };
            character.embellishments = embellishments;
            *cur = c;
            Ok((Record::Node(Node::Char(character)), tables))
        } else {
            *cur = c;
            Ok((Record::Node(Node::Char(character)), tables))
        }
    } else if tag == TMPL {
        let mut c = *cur;
        let mut template = match read_tmpl_head(&mut c) {
            Ok(v) => v,
            Err(e) => return Err(e),
        };
        let (slots, tables) = match decode_nested_list(&mut c, tables, depth, options, tag, start - 1) {
            Ok(v) => v,
            Err(e) => return Err(e),
        };
        template.slots = slots;
        *cur = c;
        Ok((Record::Node(Node::Tmpl(template)), tables))
    } else if tag == FONT_STYLE_DEF {
        match read_font_style_def(cur) {
            Ok(node) => Ok((Record::Node(node), tables)),
            Err(e) => Err(e),
        }
    } else if let Some(marker) = size_marker(tag) {
        Ok((Record::Node(Node::Size(marker)), tables))
    } else if tag == FONT_DEF {
        match read_font_def(cur, options.encoding) {
            Ok(font) => Ok((Record::FontDef(font), tables)),
            Err(e) => Err(e),
        }
    } else if tag == EQN_PREFS {
        match read_prefs(cur) {
            Ok(prefs) => Ok((Record::Node(Node::EqnPrefs(prefs)), tables)),
            Err(e) => Err(e),
        }
    } else if tag == ENCODING_DEF {
        match read_null_terminated_string(cur, options.encoding, Site::Record(ENCODING_DEF)) {
            Ok(name) => Ok((Record::EncodingDef(name), tables)),
            Err(e) => Err(e),
        }
    } else if tag >= FUTURE {
        match read_future(cur, tag) {
            Ok(node) => Ok((Record::Node(node), tables)),
            Err(e) => Err(e),
        }
    } else {
        Err(Error::UnsupportedRecord { tag, offset: start - 1 })
    }
}

/// Decodes the object list at the cursor, of depth `depth`: the records up
/// to the list's END, each with the list that it owns. The nodes come back
/// in stream order, and with them `tables`, to which the definitions met on
/// the way have been appended in stream order.
///
/// The root list may also end with the buffer. Any other list that the
/// buffer's end leaves open is an error, as is a record that cannot be
/// decoded. The cursor comes to rest on the first byte after the list's END;
/// where decoding fails, the cursor stays.
pub fn decode_object_list(
    cur: &mut Cursor,
    tables: DefinitionTables,
    depth: usize,
    options: &DecodeOptions,
    root: bool,
) -> (r: Result<(Vec<Node>, DefinitionTables), Error>)
    ensures
        match list_at(old(cur).bytes(), old(cur).offset(), tables@, depth as nat, *options, root) {
            Ok((nodes, n, t)) => {
                &&& r is Ok
                &&& nodes_view(r->Ok_0.0@) == nodes
                &&& r->Ok_0.1@ == t
                &&& final(cur).offset() == old(cur).offset() + n
                &&& tables@.grows_to(t)
                &&& list_is_closed(old(cur).bytes(), old(cur).offset(), n, root)
            },
            Err(e) => r is Err && r->Err_0 == e && final(cur).offset() == old(cur).offset(),
        },
        final(cur).bytes() == old(cur).bytes(),
    decreases bytes_left(old(cur).bytes(), old(cur).offset()), 0nat,
{
    let ghost first = tables@;
    let start = cur.position();
    let mut c = *cur;
    let mut defs = tables;
    let mut nodes: Vec<Node> = Vec::new();
    assert(nodes_view(nodes@) =~= Seq::empty());
    loop
        invariant
            *cur == *old(cur),
            c.bytes() == cur.bytes(),
            start == cur.offset() <= c.offset(),
            first == tables@,
            first.grows_to(defs@),
            list_at(cur.bytes(), cur.offset(), first, depth as nat, *options, root) == list_from(
                c.bytes(),
                c.offset(),
                defs@,
                nodes_view(nodes@),
                (c.offset() - cur.offset()) as nat,
                depth as nat,
                *options,
                root,
            ),
        decreases bytes_left(c.bytes(), c.offset()),
    {
        let at = c.position();
        let tag = match c.read_u8(Site::ObjectList) {
            Ok(v) => v,
            Err(e) => {
                if root {
                    *cur = c;
                    return Ok((nodes, defs));
                } else {
                    return Err(e);
                }
            },
        };
        let (record, after) = match decode_record(tag, &mut c, defs, depth, options) {
            Ok(v) => v,
            Err(e) => return Err(e),
        };
        defs = after;
        match record {
            Record::End => {
                *cur = c;
                return Ok((nodes, defs));
            },
            Record::Node(node) => {
                proof {
                    lemma_nodes_view_push(nodes@, node);
                }
                nodes.push(node);
            },
            Record::EncodingDef(name) => {
                defs.push_encoding(name);
            },
            Record::FontDef(font) => {
                defs.push_font(font);
            },
        }
    }
}

} // verus!
