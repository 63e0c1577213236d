//! The equation tree: the nodes that decoding produces, and the mathematical
//! model of each, over which the contracts are stated.

use vstd::prelude::*;

verus! {

/// A positioning offset attached to a record.
#[derive(Debug, Clone, Copy, PartialEq, Eq)]
pub struct Nudge {
    pub dx: u16,
    pub dy: u16,
}

/// One of the five fixed type sizes that a marker record selects.
#[derive(Debug, Clone, Copy, PartialEq, Eq)]
pub enum SizeMarker {
    Full,
    Sub,
    Sub2,
    Sym,
    SubSym,
}

/// A line: an object list, with its spacing and placement.
#[derive(Debug, PartialEq, Eq)]
pub struct Line {
    pub nudge: Option<Nudge>,
    /// The line spacing, where the record carries one.
    pub line_spacing: Option<u8>,
    /// The line is a placeholder only and is not displayed.
    pub null: bool,
    /// The nodes of the line, in stream order.
    pub objects: Vec<Node>,
}

/// A character. Its identity is any of an MTCode value, an 8-bit font
/// position and a 16-bit font position.
#[derive(Debug, PartialEq, Eq)]
pub struct Character {
    pub nudge: Option<Nudge>,
    /// The typeface, with the bias of 128 taken off: positive for one of the
    /// styles, zero or negative for an explicit font.
    pub typeface: i8,
    /// The character starts a function (sin, cos, ...).
    pub function_start: bool,
    pub mtcode: Option<u16>,
    pub font_pos8: Option<u8>,
    pub font_pos16: Option<u16>,
    /// The nodes of the embellishment list; empty where the record has none.
    pub embellishments: Vec<Node>,
}

/// A template: a construct such as a fraction or a radical, with its slots.
#[derive(Debug, PartialEq, Eq)]
pub struct Template {
    pub nudge: Option<Nudge>,
    pub selector: u8,
    pub variation: u16,
    pub options: u8,
    /// The nodes of the template's object list, in stream order: one per
    /// slot.
    pub slots: Vec<Node>,
}

/// Equation preferences: type sizes, spacings and styles.
#[derive(Debug, PartialEq, Eq)]
pub struct EquationPrefs {
    pub options: u8,
    pub sizes: Vec<String>,
    pub spaces: Vec<String>,
    pub styles: Vec<Option<u8>>,
}

/// A node of the equation tree.
#[derive(Debug, PartialEq, Eq)]
pub enum Node {
    Line(Line),
    Char(Character),
    Tmpl(Template),
    /// A font style definition: an index into the font table and a
    /// character style.
    FontStyleDef { font_def_index: u8, char_style: u8 },
    EqnPrefs(EquationPrefs),
    /// A marker that sets the type size of the nodes that follow it.
    Size(SizeMarker),
    /// A record of a type reserved for future expansion, carried as it
    /// stands.
    Future { tag: u8, payload: Vec<u8> },
}

/// The model of a [`Line`].
pub struct SpecLine {
    pub nudge: Option<Nudge>,
    pub line_spacing: Option<u8>,
    pub null: bool,
    pub objects: Seq<SpecNode>,
}

/// The model of a [`Character`].
pub struct SpecCharacter {
    pub nudge: Option<Nudge>,
    pub typeface: i8,
    pub function_start: bool,
    pub mtcode: Option<u16>,
    pub font_pos8: Option<u8>,
    pub font_pos16: Option<u16>,
    pub embellishments: Seq<SpecNode>,
}

/// The model of a [`Template`].
pub struct SpecTemplate {
    pub nudge: Option<Nudge>,
    pub selector: u8,
    pub variation: u16,
    pub options: u8,
    pub slots: Seq<SpecNode>,
}

/// The model of [`EquationPrefs`].
pub struct SpecPrefs {
    pub options: u8,
    pub sizes: Seq<Seq<char>>,
    pub spaces: Seq<Seq<char>>,
    pub styles: Seq<Option<u8>>,
}

/// The model of a [`Node`].
pub enum SpecNode {
    Line(SpecLine),
    Char(SpecCharacter),
    Tmpl(SpecTemplate),
    FontStyleDef { font_def_index: u8, char_style: u8 },
    EqnPrefs(SpecPrefs),
    Size(SizeMarker),
    Future { tag: u8, payload: Seq<u8> },
}

/// The texts of a sequence of strings.
pub open spec fn texts_of(v: Seq<String>) -> Seq<Seq<char>> {
    Seq::new(v.len(), |i: int| v[i]@)
}

/// The models of a sequence of nodes.
pub open spec fn nodes_view(v: Seq<Node>) -> Seq<SpecNode>
    decreases v,
{
    Seq::new(
        v.len(),
        |i: int|
            if 0 <= i < v.len() {
                node_view(v[i])
            } else {
                arbitrary()
            },
    )
}

pub open spec fn line_view(l: Line) -> SpecLine
    decreases l,
{
    SpecLine {
        nudge: l.nudge,
        line_spacing: l.line_spacing,
        null: l.null,
        objects: nodes_view(l.objects@),
    }
}

pub open spec fn character_view(c: Character) -> SpecCharacter
    decreases c,
{
    SpecCharacter {
        nudge: c.nudge,
        typeface: c.typeface,
        function_start: c.function_start,
        mtcode: c.mtcode,
        font_pos8: c.font_pos8,
        font_pos16: c.font_pos16,
        embellishments: nodes_view(c.embellishments@),
    }
}

pub open spec fn template_view(t: Template) -> SpecTemplate
    decreases t,
{
    SpecTemplate {
        nudge: t.nudge,
        selector: t.selector,
        variation: t.variation,
        options: t.options,
        slots: nodes_view(t.slots@),
    }
}

pub open spec fn node_view(n: Node) -> SpecNode
    decreases n,
{
    match n {
        Node::Line(l) => SpecNode::Line(line_view(l)),
        Node::Char(c) => SpecNode::Char(character_view(c)),
        Node::Tmpl(t) => SpecNode::Tmpl(template_view(t)),
        Node::FontStyleDef { font_def_index, char_style } => SpecNode::FontStyleDef {
            font_def_index,
            char_style,
        },
        Node::EqnPrefs(p) => SpecNode::EqnPrefs(p@),
        Node::Size(m) => SpecNode::Size(m),
        Node::Future { tag, payload } => SpecNode::Future { tag, payload: payload@ },
    }
}

impl View for EquationPrefs {
    type V = SpecPrefs;

    open spec fn view(&self) -> SpecPrefs {
        SpecPrefs {
            options: self.options,
            sizes: texts_of(self.sizes@),
            spaces: texts_of(self.spaces@),
            styles: self.styles@,
        }
    }
}

impl View for Line {
    type V = SpecLine;

    open spec fn view(&self) -> SpecLine {
        line_view(*self)
    }
}

impl View for Character {
    type V = SpecCharacter;

    open spec fn view(&self) -> SpecCharacter {
        character_view(*self)
    }
}

impl View for Template {
    type V = SpecTemplate;

    open spec fn view(&self) -> SpecTemplate {
        template_view(*self)
    }
}

impl View for Node {
    type V = SpecNode;

    open spec fn view(&self) -> SpecNode {
        node_view(*self)
    }
}

/// Appending a node to a list appends its model to the list's model.
pub proof fn lemma_nodes_view_push(v: Seq<Node>, n: Node)
    ensures
        nodes_view(v.push(n)) == nodes_view(v).push(n@),
{
    assert(nodes_view(v.push(n)) =~= nodes_view(v).push(n@));
}

/// Appending a string to a list appends its text to the list's texts.
pub proof fn lemma_texts_of_push(v: Seq<String>, s: String)
    ensures
        texts_of(v.push(s)) == texts_of(v).push(s@),
{
    assert(texts_of(v.push(s)) =~= texts_of(v).push(s@));
}

} // verus!
