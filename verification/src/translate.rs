//! The translator: from an equation tree to text, through two dictionaries
//! that the caller supplies.
//!
//! The glyph dictionary gives the text of a character, the macro dictionary
//! the shape of a template: the pieces of text between which the
//! translations of the template's slots go. The walk is depth-first and,
//! within each object list, from left to right. It yields a sequence of
//! fragments, each with the type size in force where it was made.

use vstd::prelude::*;
use vstd::string::StringExecFns;
use crate::eqn::MTEquation;
use crate::error::{Error, LookupKey};
use crate::node::{nodes_view, texts_of, Character, Node, SizeMarker, SpecCharacter, SpecNode};
use crate::tables::{DefinitionTables, SpecTables};

verus! {

/// The part of a character's identity that a glyph is looked up by.
#[derive(Debug, Clone, Copy, PartialEq, Eq)]
pub enum GlyphKey {
    MtCode(u16),
    FontPos8(u8),
    FontPos16(u16),
}

/// An entry of the glyph dictionary: the text for the characters whose
/// identity holds `key`.
#[derive(Debug, PartialEq, Eq)]
pub struct GlyphEntry {
    pub key: GlyphKey,
    pub text: String,
}

/// The model of a [`GlyphEntry`].
pub struct SpecGlyphEntry {
    pub key: GlyphKey,
    pub text: Seq<char>,
}

impl View for GlyphEntry {
    type V = SpecGlyphEntry;

    open spec fn view(&self) -> SpecGlyphEntry {
        SpecGlyphEntry { key: self.key, text: self.text@ }
    }
}

/// An entry of the macro dictionary: the shape of the templates with this
/// selector and variation. The translation of such a template is the first
/// piece, the first slot, the second piece, the second slot and so on, and
/// then the pieces that are left.
#[derive(Debug, PartialEq, Eq)]
pub struct MacroEntry {
    pub selector: u8,
    pub variation: u16,
    pub pieces: Vec<String>,
}

/// The model of a [`MacroEntry`].
pub struct SpecMacroEntry {
    pub selector: u8,
    pub variation: u16,
    pub pieces: Seq<Seq<char>>,
}

impl View for MacroEntry {
    type V = SpecMacroEntry;

    open spec fn view(&self) -> SpecMacroEntry {
        SpecMacroEntry {
            selector: self.selector,
            variation: self.variation,
            pieces: texts_of(self.pieces@),
        }
    }
}

/// A piece of the translation, and the type size in force where it stands.
#[derive(Debug, PartialEq, Eq)]
pub struct Fragment {
    pub size: SizeMarker,
    pub text: String,
}

/// The model of a [`Fragment`].
pub struct SpecFragment {
    pub size: SizeMarker,
    pub text: Seq<char>,
}

impl View for Fragment {
    type V = SpecFragment;

    open spec fn view(&self) -> SpecFragment {
        SpecFragment { size: self.size, text: self.text@ }
    }
}

/// The models of a sequence of glyph entries.
pub open spec fn glyphs_view(v: Seq<GlyphEntry>) -> Seq<SpecGlyphEntry> {
    Seq::new(v.len(), |i: int| v[i]@)
}

/// The models of a sequence of macro entries.
pub open spec fn macros_view(v: Seq<MacroEntry>) -> Seq<SpecMacroEntry> {
    Seq::new(v.len(), |i: int| v[i]@)
}

/// The models of a sequence of fragments.
pub open spec fn fragments_view(v: Seq<Fragment>) -> Seq<SpecFragment> {
    Seq::new(v.len(), |i: int| v[i]@)
}

/// What a translation consults: the definition tables of the document and
/// the two dictionaries.
pub struct Context {
    pub tables: SpecTables,
    pub glyphs: Seq<SpecGlyphEntry>,
    pub macros: Seq<SpecMacroEntry>,
}

/// Whether the identity of the character `c` holds `key`.
pub open spec fn key_matches(key: GlyphKey, c: SpecCharacter) -> bool {
    match key {
        GlyphKey::MtCode(code) => c.mtcode == Some(code),
        GlyphKey::FontPos8(pos) => c.font_pos8 == Some(pos),
        GlyphKey::FontPos16(pos) => c.font_pos16 == Some(pos),
    }
}

/// The text of the first entry, from index `i` on, whose key the identity of
/// `c` holds.
pub open spec fn glyph_from(glyphs: Seq<SpecGlyphEntry>, c: SpecCharacter, i: int) -> Option<
    Seq<char>,
>
    decreases glyphs.len() - i,
{
    if i < 0 || i >= glyphs.len() {
        None
    } else if key_matches(glyphs[i].key, c) {
        Some(glyphs[i].text)
    } else {
        glyph_from(glyphs, c, i + 1)
    }
}

/// The pieces of the first entry, from index `i` on, for the given selector
/// and variation.
pub open spec fn macro_from(macros: Seq<SpecMacroEntry>, selector: u8, variation: u16, i: int) -> Option<
    Seq<Seq<char>>,
>
    decreases macros.len() - i,
{
    if i < 0 || i >= macros.len() {
        None
    } else if macros[i].selector == selector && macros[i].variation == variation {
        Some(macros[i].pieces)
    } else {
        macro_from(macros, selector, variation, i + 1)
    }
}

/// The key under which the glyph of the character `c` is looked up: all of
/// its identity.
pub open spec fn glyph_key_of(c: SpecCharacter) -> LookupKey {
    LookupKey::Glyph { mtcode: c.mtcode, font_pos8: c.font_pos8, font_pos16: c.font_pos16 }
}

/// `acc`, then the pieces from index `k` on, each as a fragment of the given
/// size.
pub open spec fn with_pieces_from(
    pieces: Seq<Seq<char>>,
    k: int,
    size: SizeMarker,
    acc: Seq<SpecFragment>,
) -> Seq<SpecFragment>
    decreases pieces.len() - k,
{
    if k < 0 || k >= pieces.len() {
        acc
    } else {
        with_pieces_from(pieces, k + 1, size, acc.push(SpecFragment { size, text: pieces[k] }))
    }
}

/// `acc`, then the piece at index `k`, if there is one, as a fragment of the
/// given size.
pub open spec fn with_piece(pieces: Seq<Seq<char>>, k: int, size: SizeMarker, acc: Seq<SpecFragment>) -> Seq<
    SpecFragment,
> {
    if 0 <= k < pieces.len() {
        acc.push(SpecFragment { size, text: pieces[k] })
    } else {
        acc
    }
}

/// The translation of one node at the given type size.
///
/// A line translates to the translation of its object list. A character
/// translates to its glyph, then to the translation of its embellishment
/// list. A template translates to the pieces of its macro with the
/// translations of its slots between them. A font style definition
/// translates to nothing, but the font that it names, and the encoding of
/// that font, must be in the tables. Equation preferences, size markers and
/// future records translate to nothing.
pub open spec fn node_translation(n: SpecNode, size: SizeMarker, ctx: Context) -> Result<
    Seq<SpecFragment>,
    Error,
>
    decreases n, 0nat,
{
    match n {
        SpecNode::Line(line) => list_translation_from(line.objects, 0, size, Seq::empty(), ctx),
        SpecNode::Char(c) => match glyph_from(ctx.glyphs, c, 0) {
            None => Err(Error::UnresolvedLookup { key: glyph_key_of(c) }),
            Some(text) => list_translation_from(
                c.embellishments,
                0,
                size,
                seq![SpecFragment { size, text }],
                ctx,
            ),
        },
        SpecNode::Tmpl(t) => match macro_from(ctx.macros, t.selector, t.variation, 0) {
            None => Err(
                Error::UnresolvedLookup {
                    key: LookupKey::Macro { selector: t.selector, variation: t.variation },
                },
            ),
            Some(pieces) => template_translation_from(pieces, t.slots, 0, 0, size, Seq::empty(), ctx),
        },
        SpecNode::FontStyleDef { font_def_index, char_style } => match ctx.tables.font_encoding(
            font_def_index as int,
        ) {
            Err(e) => Err(e),
            Ok(_) => Ok(Seq::empty()),
        },
        SpecNode::EqnPrefs(_) => Ok(Seq::empty()),
        SpecNode::Size(_) => Ok(Seq::empty()),
        SpecNode::Future { .. } => Ok(Seq::empty()),
    }
}

/// The translation of an object list, taken up at the node `i` at the given
/// type size, with `acc` translated before. A size marker changes the size
/// for the nodes after it, up to the next marker or the end of the list;
/// every other node adds its translation.
pub open spec fn list_translation_from(
    nodes: Seq<SpecNode>,
    i: int,
    size: SizeMarker,
    acc: Seq<SpecFragment>,
    ctx: Context,
) -> Result<Seq<SpecFragment>, Error>
    decreases nodes, nodes.len() - i,
{
    if i < 0 || i >= nodes.len() {
        Ok(acc)
    } else {
        match nodes[i] {
            SpecNode::Size(marker) => list_translation_from(nodes, i + 1, marker, acc, ctx),
            node => match node_translation(node, size, ctx) {
                Err(e) => Err(e),
                Ok(fragments) => list_translation_from(nodes, i + 1, size, acc + fragments, ctx),
            },
        }
    }
}

/// The translation of a template with the given pieces, taken up at the
/// node `i` of its object list after `k` slots, with `acc` translated
/// before. Every node but a size marker is a slot: it adds the piece that
/// goes before it and its translation. After the last node come the pieces
/// that are left.
pub open spec fn template_translation_from(
    pieces: Seq<Seq<char>>,
    nodes: Seq<SpecNode>,
    i: int,
    k: int,
    size: SizeMarker,
    acc: Seq<SpecFragment>,
    ctx: Context,
) -> Result<Seq<SpecFragment>, Error>
    decreases nodes, nodes.len() - i,
{
    if i < 0 || i >= nodes.len() {
        Ok(with_pieces_from(pieces, k, size, acc))
    } else {
        match nodes[i] {
            SpecNode::Size(marker) => template_translation_from(
                pieces,
                nodes,
                i + 1,
                k,
                marker,
                acc,
                ctx,
            ),
            node => match node_translation(node, size, ctx) {
                Err(e) => Err(e),
                Ok(fragments) => template_translation_from(
                    pieces,
                    nodes,
                    i + 1,
                    k + 1,
                    size,
                    with_piece(pieces, k, size, acc) + fragments,
                    ctx,
                ),
            },
        }
    }
}

/// The translation of an object list that starts at the given type size.
pub open spec fn list_translation(nodes: Seq<SpecNode>, size: SizeMarker, ctx: Context) -> Result<
    Seq<SpecFragment>,
    Error,
> {
    list_translation_from(nodes, 0, size, Seq::empty(), ctx)
}

/// `acc`, then the texts of the fragments from index `i` on.
pub open spec fn joined_from(fragments: Seq<SpecFragment>, i: int, acc: Seq<char>) -> Seq<char>
    decreases fragments.len() - i,
{
    if i < 0 || i >= fragments.len() {
        acc
    } else {
        joined_from(fragments, i + 1, acc + fragments[i].text)
    }
}

/// The texts of the fragments, one after the other.
pub open spec fn joined(fragments: Seq<SpecFragment>) -> Seq<char> {
    joined_from(fragments, 0, Seq::empty())
}

/// What the translation of a document consults.
pub open spec fn context_of(
    tables: SpecTables,
    glyphs: Seq<GlyphEntry>,
    macros: Seq<MacroEntry>,
) -> Context {
    Context { tables, glyphs: glyphs_view(glyphs), macros: macros_view(macros) }
}

/// Whether `r` is the fragments that `expected` gives, or the error that it
/// gives.
pub open spec fn is_translation(r: Result<Vec<Fragment>, Error>, expected: Result<
    Seq<SpecFragment>,
    Error,
>) -> bool {
    match expected {
        Ok(fragments) => r is Ok && fragments_view(r->Ok_0@) == fragments,
        Err(e) => r is Err && r->Err_0 == e,
    }
}

/// Adding a fragment to a list adds its model to the list's model.
proof fn lemma_fragments_push(v: Seq<Fragment>, f: Fragment)
    ensures
        fragments_view(v.push(f)) == fragments_view(v).push(f@),
{
    assert(fragments_view(v.push(f)) =~= fragments_view(v).push(f@));
}

/// Joining two lists joins their models.
proof fn lemma_fragments_add(v: Seq<Fragment>, w: Seq<Fragment>)
    ensures
        fragments_view(v + w) == fragments_view(v) + fragments_view(w),
{
    assert(fragments_view(v + w) =~= fragments_view(v) + fragments_view(w));
}

/// Tells whether the identity of the character `c` holds `key`.
fn identity_holds(key: GlyphKey, c: &Character) -> (b: bool)
    ensures
        b == key_matches(key, c@),
{
    match key {
        GlyphKey::MtCode(code) => match c.mtcode {
            Some(v) => v == code,
            None => false,
        },
        GlyphKey::FontPos8(pos) => match c.font_pos8 {
            Some(v) => v == pos,
            None => false,
        },
        GlyphKey::FontPos16(pos) => match c.font_pos16 {
            Some(v) => v == pos,
            None => false,
        },
    }
}

/// Looks up the glyph of the character `c`: the text of the first entry
/// whose key the identity of `c` holds.
pub fn find_glyph<'a>(glyphs: &'a Vec<GlyphEntry>, c: &Character) -> (r: Option<&'a String>)
    ensures
        match glyph_from(glyphs_view(glyphs@), c@, 0) {
            Some(text) => r is Some && r->Some_0@ == text,
            None => r is None,
        },
{
    let mut i: usize = 0;
    while i < glyphs.len()
        invariant
            i <= glyphs@.len(),
            glyph_from(glyphs_view(glyphs@), c@, 0) == glyph_from(glyphs_view(glyphs@), c@, i as int),
        decreases glyphs@.len() - i,
    {
        if identity_holds(glyphs[i].key, c) {
            return Some(&glyphs[i].text);
        }
        i = i + 1;
    }
    None
}

/// Looks up the shape of a template: the pieces of the first entry for its
/// selector and variation.
pub fn find_macro<'a>(macros: &'a Vec<MacroEntry>, selector: u8, variation: u16) -> (r: Option<
    &'a Vec<String>,
>)
    ensures
        match macro_from(macros_view(macros@), selector, variation, 0) {
            Some(pieces) => r is Some && texts_of(r->Some_0@) == pieces,
            None => r is None,
        },
{
    let mut i: usize = 0;
    while i < macros.len()
        invariant
            i <= macros@.len(),
            macro_from(macros_view(macros@), selector, variation, 0) == macro_from(
                macros_view(macros@),
                selector,
                variation,
                i as int,
            ),
        decreases macros@.len() - i,
    {
        if macros[i].selector == selector && macros[i].variation == variation {
            return Some(&macros[i].pieces);
        }
        i = i + 1;
    }
    None
}

/// Translates one node at the given type size.
pub fn translate_node(
    node: &Node,
    size: SizeMarker,
    tables: &DefinitionTables,
    glyphs: &Vec<GlyphEntry>,
    macros: &Vec<MacroEntry>,
) -> (r: Result<Vec<Fragment>, Error>)
    ensures
        is_translation(r, node_translation(node@, size, context_of(tables@, glyphs@, macros@))),
    decreases node, 0nat,
{
    match node {
        Node::Line(line) => {
            let none: Vec<Fragment> = Vec::new();
            assert(fragments_view(none@) =~= Seq::empty());
            translate_list_from(&line.objects, size, none, tables, glyphs, macros)
        },
        Node::Char(c) => match find_glyph(glyphs, c) {
            None => Err(
                Error::UnresolvedLookup {
                    key: LookupKey::Glyph {
                        mtcode: c.mtcode,
                        font_pos8: c.font_pos8,
                        font_pos16: c.font_pos16,
                    },
                },
            ),
            Some(text) => {
                let mut first: Vec<Fragment> = Vec::new();
                first.push(Fragment { size, text: text.clone() });
                assert(fragments_view(first@) =~= seq![SpecFragment { size, text: text@ }]);
                translate_list_from(&c.embellishments, size, first, tables, glyphs, macros)
            },
        },
        Node::Tmpl(t) => match find_macro(macros, t.selector, t.variation) {
            None => Err(
                Error::UnresolvedLookup {
                    key: LookupKey::Macro { selector: t.selector, variation: t.variation },
                },
            ),
            Some(pieces) => translate_template(pieces, &t.slots, size, tables, glyphs, macros),
        },
        Node::FontStyleDef { font_def_index, char_style } => match tables.font_encoding(
            *font_def_index as usize,
        ) {
            Err(e) => Err(e),
            Ok(_) => {
                let none: Vec<Fragment> = Vec::new();
                assert(fragments_view(none@) =~= Seq::empty());
                Ok(none)
            },
        },
        _ => {
            let none: Vec<Fragment> = Vec::new();
            assert(fragments_view(none@) =~= Seq::empty());
            Ok(none)
        },
    }
}

/// Translates an object list that starts at the given type size, and adds
/// the translation to `before`.
pub fn translate_list_from(
    nodes: &Vec<Node>,
    size: SizeMarker,
    before: Vec<Fragment>,
    tables: &DefinitionTables,
    glyphs: &Vec<GlyphEntry>,
    macros: &Vec<MacroEntry>,
) -> (r: Result<Vec<Fragment>, Error>)
    ensures
        is_translation(
            r,
            list_translation_from(
                nodes_view(nodes@),
                0,
                size,
                fragments_view(before@),
                context_of(tables@, glyphs@, macros@),
            ),
        ),
    decreases nodes, 1nat,
{
    let ghost ctx = context_of(tables@, glyphs@, macros@);
    let mut out = before;
    let mut current = size;
    let mut i: usize = 0;
    while i < nodes.len()
        invariant
            i <= nodes@.len(),
            ctx == context_of(tables@, glyphs@, macros@),
            list_translation_from(nodes_view(nodes@), 0, size, fragments_view(before@), ctx)
                == list_translation_from(
                nodes_view(nodes@),
                i as int,
                current,
                fragments_view(out@),
                ctx,
            ),
        decreases nodes@.len() - i,
    {
        match &nodes[i] {
            Node::Size(marker) => {
                current = *marker;
            },
            node => {
                let mut fragments = match translate_node(node, current, tables, glyphs, macros) {
                    Ok(v) => v,
                    Err(e) => return Err(e),
                };
                proof {
                    lemma_fragments_add(out@, fragments@);
                }
                out.append(&mut fragments);
            },
        }
        i = i + 1;
    }
    Ok(out)
}

/// A fragment of the given size with a copy of the text.
fn fragment_of(size: SizeMarker, text: &String) -> (f: Fragment)
    ensures
        f@ == (SpecFragment { size, text: text@ }),
{
    Fragment { size, text: text.clone() }
}

/// Translates a template with the given pieces and object list.
pub fn translate_template(
    pieces: &Vec<String>,
    nodes: &Vec<Node>,
    size: SizeMarker,
    tables: &DefinitionTables,
    glyphs: &Vec<GlyphEntry>,
    macros: &Vec<MacroEntry>,
) -> (r: Result<Vec<Fragment>, Error>)
    ensures
        is_translation(
            r,
            template_translation_from(
                texts_of(pieces@),
                nodes_view(nodes@),
                0,
                0,
                size,
                Seq::empty(),
                context_of(tables@, glyphs@, macros@),
            ),
        ),
    decreases nodes, 1nat,
{
    let ghost ctx = context_of(tables@, glyphs@, macros@);
    let ghost shape = texts_of(pieces@);
    let mut out: Vec<Fragment> = Vec::new();
    assert(fragments_view(out@) =~= Seq::empty());
    let mut current = size;
    let mut i: usize = 0;
    let mut k: usize = 0;
    while i < nodes.len()
        invariant
            k <= i <= nodes@.len(),
            ctx == context_of(tables@, glyphs@, macros@),
            shape == texts_of(pieces@),
            template_translation_from(shape, nodes_view(nodes@), 0, 0, size, Seq::empty(), ctx)
                == template_translation_from(
                shape,
                nodes_view(nodes@),
                i as int,
                k as int,
                current,
                fragments_view(out@),
                ctx,
            ),
        decreases nodes@.len() - i,
    {
        match &nodes[i] {
            Node::Size(marker) => {
                current = *marker;
            },
            node => {
                let mut fragments = match translate_node(node, current, tables, glyphs, macros) {
                    Ok(v) => v,
                    Err(e) => return Err(e),
                };
                if k < pieces.len() {
                    let piece = fragment_of(current, &pieces[k]);
                    proof {
                        lemma_fragments_push(out@, piece);
                    }
                    out.push(piece);
                }
                proof {
                    lemma_fragments_add(out@, fragments@);
                }
                out.append(&mut fragments);
                k = k + 1;
            },
        }
        i = i + 1;
    }
    while k < pieces.len()
        invariant
            shape == texts_of(pieces@),
            template_translation_from(shape, nodes_view(nodes@), 0, 0, size, Seq::empty(), ctx)
                == Ok::<Seq<SpecFragment>, Error>(
                with_pieces_from(shape, k as int, current, fragments_view(out@)),
            ),
        decreases pieces@.len() - k,
    {
        let piece = fragment_of(current, &pieces[k]);
        proof {
            lemma_fragments_push(out@, piece);
        }
        out.push(piece);
        k = k + 1;
    }
    Ok(out)
}

/// Joins the texts of the fragments.
pub fn join(fragments: &Vec<Fragment>) -> (text: String)
    ensures
        text@ == joined(fragments_view(fragments@)),
{
    let mut text = String::new();
    let mut i: usize = 0;
    while i < fragments.len()
        invariant
            i <= fragments@.len(),
            joined(fragments_view(fragments@)) == joined_from(
                fragments_view(fragments@),
                i as int,
                text@,
            ),
        decreases fragments@.len() - i,
    {
        text.append(fragments[i].text.as_str());
        i = i + 1;
    }
    text
}

impl MTEquation {
    /// Translates the equation to fragments of text. The root object list
    /// starts at full size.
    pub fn translate_fragments(&self, glyphs: &Vec<GlyphEntry>, macros: &Vec<MacroEntry>) -> (r:
        Result<Vec<Fragment>, Error>)
        ensures
            is_translation(
                r,
                list_translation(
                    self@.records,
                    SizeMarker::Full,
                    context_of(self@.tables, glyphs@, macros@),
                ),
            ),
    {
        let none: Vec<Fragment> = Vec::new();
        assert(fragments_view(none@) =~= Seq::empty());
        translate_list_from(self.records(), SizeMarker::Full, none, self.tables(), glyphs, macros)
    }

    /// Translates the equation to text: the texts of its fragments, one
    /// after the other.
    pub fn translate(&self, glyphs: &Vec<GlyphEntry>, macros: &Vec<MacroEntry>) -> (r: Result<
        String,
        Error,
    >)
        ensures
            match list_translation(
                self@.records,
                SizeMarker::Full,
                context_of(self@.tables, glyphs@, macros@),
            ) {
                Ok(fragments) => r is Ok && r->Ok_0@ == joined(fragments),
                Err(e) => r is Err && r->Err_0 == e,
            },
    {
        match self.translate_fragments(glyphs, macros) {
            Ok(fragments) => Ok(join(&fragments)),
            Err(e) => Err(e),
        }
    }
}

} // verus!
