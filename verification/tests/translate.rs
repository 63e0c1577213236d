use mtef::eqn::MTEquation;
use mtef::error::{Error, LookupKey, TableKind};
use mtef::node::{Character, Line, Node, SizeMarker, Template};
use mtef::tables::{DefinitionTables, FontDef};
use mtef::translate::{
    find_glyph, find_macro, join, translate_list_from, translate_node, translate_template,
    Fragment, GlyphEntry, GlyphKey, MacroEntry,
};

fn glyph(key: GlyphKey, text: &str) -> GlyphEntry {
    GlyphEntry { key, text: text.to_string() }
}

fn shape(selector: u8, variation: u16, pieces: &[&str]) -> MacroEntry {
    MacroEntry { selector, variation, pieces: pieces.iter().map(|p| p.to_string()).collect() }
}

fn glyphs() -> Vec<GlyphEntry> {
    vec![
        glyph(GlyphKey::MtCode(0x78), "x"),
        glyph(GlyphKey::MtCode(0x79), "y"),
        glyph(GlyphKey::FontPos8(0x61), "\\alpha"),
        glyph(GlyphKey::FontPos16(0x0161), "\\beta"),
        glyph(GlyphKey::MtCode(0x78), "never"),
    ]
}

fn macros() -> Vec<MacroEntry> {
    vec![
        shape(1, 2, &["\\frac{", "}{", "}"]),
        shape(0, 0, &["(", ")"]),
        shape(1, 2, &["never"]),
    ]
}

fn character(mtcode: Option<u16>, font_pos8: Option<u8>, font_pos16: Option<u16>) -> Character {
    Character {
        nudge: None,
        typeface: 3,
        function_start: false,
        mtcode,
        font_pos8,
        font_pos16,
        embellishments: vec![],
    }
}

fn ch(code: u16) -> Node {
    Node::Char(character(Some(code), None, None))
}

fn line(objects: Vec<Node>) -> Node {
    Node::Line(Line { nudge: None, line_spacing: None, null: false, objects })
}

fn frag(size: SizeMarker, text: &str) -> Fragment {
    Fragment { size, text: text.to_string() }
}

fn stream(records: &[u8]) -> Vec<u8> {
    let mut bytes = vec![5, 0, 0, 0, 0, b'M', b'T', 0, 0];
    bytes.extend_from_slice(records);
    bytes
}

#[test]
fn fraction_is_spliced_into_its_macro() {
    let records = [
        0x03, 0x00, 0x01, 0x02, 0x00, //
        0x01, 0x00, 0x02, 0x00, 0x83, 0x78, 0x00, 0x00, //
        0x01, 0x00, 0x02, 0x00, 0x83, 0x79, 0x00, 0x00, //
        0x00, 0x00,
    ];
    let eqn = MTEquation::parse(stream(&records)).unwrap();
    assert_eq!(eqn.translate(&glyphs(), &macros()), Ok("\\frac{x}{y}".to_string()));
    let full = SizeMarker::Full;
    assert_eq!(
        eqn.translate_fragments(&glyphs(), &macros()),
        Ok(vec![
            frag(full, "\\frac{"),
            frag(full, "x"),
            frag(full, "}{"),
            frag(full, "y"),
            frag(full, "}")
        ])
    );
}

#[test]
fn first_matching_entry_wins() {
    let table = glyphs();
    assert_eq!(find_glyph(&table, &character(Some(0x78), None, None)).unwrap(), "x");
    assert_eq!(find_glyph(&table, &character(None, Some(0x61), Some(0x0161))).unwrap(), "\\alpha");
    assert_eq!(find_glyph(&table, &character(None, None, Some(0x0161))).unwrap(), "\\beta");
    assert_eq!(find_glyph(&table, &character(Some(0x79), Some(0x61), None)).unwrap(), "y");
    assert_eq!(find_glyph(&table, &character(Some(0x61), None, None)), None);
    assert_eq!(find_glyph(&table, &character(None, None, None)), None);
    let table = macros();
    assert_eq!(find_macro(&table, 1, 2).unwrap().len(), 3);
    assert_eq!(find_macro(&table, 0, 0).unwrap().len(), 2);
    assert_eq!(find_macro(&table, 1, 0), None);
    assert_eq!(find_macro(&table, 2, 2), None);
}

#[test]
fn unresolved_glyph_names_the_character() {
    let tables = DefinitionTables::new();
    let node = Node::Char(character(Some(0x7a), Some(1), None));
    assert_eq!(
        translate_node(&node, SizeMarker::Full, &tables, &glyphs(), &macros()),
        Err(Error::UnresolvedLookup {
            key: LookupKey::Glyph { mtcode: Some(0x7a), font_pos8: Some(1), font_pos16: None }
        })
    );
    let nodes = vec![ch(0x78), line(vec![ch(0x79), ch(0x7a)]), ch(0x78)];
    assert_eq!(
        translate_list_from(&nodes, SizeMarker::Full, vec![], &tables, &glyphs(), &macros()),
        Err(Error::UnresolvedLookup {
            key: LookupKey::Glyph { mtcode: Some(0x7a), font_pos8: None, font_pos16: None }
        })
    );
}

#[test]
fn unresolved_macro_names_selector_and_variation() {
    let tables = DefinitionTables::new();
    let node = Node::Tmpl(Template {
        nudge: None,
        selector: 9,
        variation: 0x0102,
        options: 0,
        slots: vec![],
    });
    assert_eq!(
        translate_node(&node, SizeMarker::Full, &tables, &glyphs(), &macros()),
        Err(Error::UnresolvedLookup { key: LookupKey::Macro { selector: 9, variation: 0x0102 } })
    );
}

#[test]
fn size_markers_hold_until_the_next_marker_or_the_end_of_the_list() {
    let tables = DefinitionTables::new();
    let nodes = vec![
        ch(0x78),
        Node::Size(SizeMarker::Sub),
        ch(0x79),
        line(vec![ch(0x78), Node::Size(SizeMarker::Sub2), ch(0x79)]),
        ch(0x78),
        Node::Size(SizeMarker::Sym),
        Node::Size(SizeMarker::SubSym),
        ch(0x79),
    ];
    let before = vec![frag(SizeMarker::Sym, "=")];
    assert_eq!(
        translate_list_from(&nodes, SizeMarker::Full, before, &tables, &glyphs(), &macros()),
        Ok(vec![
            frag(SizeMarker::Sym, "="),
            frag(SizeMarker::Full, "x"),
            frag(SizeMarker::Sub, "y"),
            frag(SizeMarker::Sub, "x"),
            frag(SizeMarker::Sub2, "y"),
            frag(SizeMarker::Sub, "x"),
            frag(SizeMarker::SubSym, "y"),
        ])
    );
}

#[test]
fn template_with_fewer_or_more_slots_than_pieces() {
    let tables = DefinitionTables::new();
    let pieces: Vec<String> = vec!["<".to_string(), "|".to_string(), ">".to_string()];
    let full = SizeMarker::Full;
    let sub = SizeMarker::Sub;
    let run = |slots: &Vec<Node>| {
        translate_template(&pieces, slots, full, &tables, &glyphs(), &macros())
            .map(|fragments| join(&fragments))
    };
    assert_eq!(run(&vec![]), Ok("<|>".to_string()));
    assert_eq!(run(&vec![ch(0x78)]), Ok("<x|>".to_string()));
    assert_eq!(run(&vec![ch(0x78), ch(0x79)]), Ok("<x|y>".to_string()));
    assert_eq!(
        run(&vec![ch(0x78), ch(0x79), ch(0x78), ch(0x79)]),
        Ok("<x|y>xy".to_string())
    );
    let slots = vec![ch(0x78), Node::Size(sub), line(vec![ch(0x79)])];
    assert_eq!(
        translate_template(&pieces, &slots, full, &tables, &glyphs(), &macros()),
        Ok(vec![frag(full, "<"), frag(full, "x"), frag(sub, "|"), frag(sub, "y"), frag(sub, ">")])
    );
}

#[test]
fn embellishments_follow_the_glyph() {
    let tables = DefinitionTables::new();
    let mut c = character(Some(0x78), None, None);
    c.embellishments = vec![Node::Size(SizeMarker::Sub), ch(0x79)];
    assert_eq!(
        translate_node(&Node::Char(c), SizeMarker::Full, &tables, &glyphs(), &macros()),
        Ok(vec![frag(SizeMarker::Full, "x"), frag(SizeMarker::Sub, "y")])
    );
}

#[test]
fn nodes_without_text_translate_to_nothing() {
    let tables = DefinitionTables::new();
    let nodes = vec![
        Node::Future { tag: 100, payload: vec![1, 2] },
        Node::Size(SizeMarker::Sub),
        Node::EqnPrefs(mtef::node::EquationPrefs {
            options: 0,
            sizes: vec![],
            spaces: vec![],
            styles: vec![],
        }),
    ];
    for node in &nodes {
        assert_eq!(
            translate_node(node, SizeMarker::Full, &tables, &glyphs(), &macros()),
            Ok(vec![])
        );
    }
}

#[test]
fn font_style_must_resolve_in_the_tables() {
    let node = Node::FontStyleDef { font_def_index: 0, char_style: 1 };
    let run = |tables: &DefinitionTables| {
        translate_node(&node, SizeMarker::Full, tables, &glyphs(), &macros())
    };
    let mut tables = DefinitionTables::new();
    assert_eq!(run(&tables), Err(Error::UnresolvedIndex { table: TableKind::Font, index: 0 }));
    tables.push_font(FontDef { encoding_index: 4, name: "F".to_string() });
    assert_eq!(run(&tables), Err(Error::UnresolvedIndex { table: TableKind::Encoding, index: 4 }));
    tables.push_encoding("Symbol2".to_string());
    assert_eq!(run(&tables), Ok(vec![]));
}

#[test]
fn translation_of_a_stream_with_a_dangling_font_style_fails() {
    let eqn = MTEquation::parse(stream(&[0x02, 0x00, 0x83, 0x78, 0x00, 0x08, 0x01, 0x00])).unwrap();
    assert_eq!(
        eqn.translate(&glyphs(), &macros()),
        Err(Error::UnresolvedIndex { table: TableKind::Font, index: 1 })
    );
}

#[test]
fn joined_texts() {
    assert_eq!(join(&vec![]), "");
    let fragments = vec![frag(SizeMarker::Full, "a"), frag(SizeMarker::Sub, ""), frag(SizeMarker::Sym, "bc")];
    assert_eq!(join(&fragments), "abc");
}

#[test]
fn empty_document_translates_to_nothing() {
    let eqn = MTEquation::parse(stream(&[])).unwrap();
    assert_eq!(eqn.translate(&vec![], &vec![]), Ok(String::new()));
}
