//! The definition tables: the encodings, fonts and colors that a stream
//! declares, in the order of their declaration, referred to by index.
//!
//! A table only grows, and at its end: the index of an entry never changes.

use vstd::prelude::*;
use vstd::string::StringExecFns;
use crate::error::{Error, TableKind};
use crate::node::texts_of;

verus! {

/// A font definition: a font name and the index of its encoding in the
/// encoding table.
#[derive(Debug, PartialEq, Eq)]
pub struct FontDef {
    pub encoding_index: u8,
    pub name: String,
}

/// The model of a [`FontDef`].
pub struct SpecFontDef {
    pub encoding_index: u8,
    pub name: Seq<char>,
}

impl View for FontDef {
    type V = SpecFontDef;

    open spec fn view(&self) -> SpecFontDef {
        SpecFontDef { encoding_index: self.encoding_index, name: self.name@ }
    }
}

/// The color model of a color definition.
#[derive(Debug, Clone, Copy, PartialEq, Eq)]
pub enum ColorModel {
    Rgb,
    Cmyk,
}

/// A color definition: a color model, the values of its channels, and a
/// name where the color has one.
#[derive(Debug, PartialEq, Eq)]
pub struct ColorDef {
    pub model: ColorModel,
    pub channels: Vec<u16>,
    pub name: Option<String>,
}

/// The model of a [`ColorDef`].
pub struct SpecColorDef {
    pub model: ColorModel,
    pub channels: Seq<u16>,
    pub name: Option<Seq<char>>,
}

impl View for ColorDef {
    type V = SpecColorDef;

    open spec fn view(&self) -> SpecColorDef {
        SpecColorDef {
            model: self.model,
            channels: self.channels@,
            name: match self.name {
                Some(n) => Some(n@),
                None => None,
            },
        }
    }
}

/// The model of the [`DefinitionTables`]: each table as the sequence of its
/// entries.
pub struct SpecTables {
    pub encodings: Seq<Seq<char>>,
    pub fonts: Seq<SpecFontDef>,
    pub colors: Seq<SpecColorDef>,
}

/// The four encodings that every document starts with.
pub open spec fn builtin_encodings() -> Seq<Seq<char>> {
    seq!["MTCode"@, "Unknown"@, "Symbol"@, "MTExtra"@]
}

/// The tables of a document before its stream is read.
pub open spec fn initial_tables() -> SpecTables {
    SpecTables { encodings: builtin_encodings(), fonts: Seq::empty(), colors: Seq::empty() }
}

impl SpecTables {
    /// The tables with one more encoding.
    pub open spec fn with_encoding(self, name: Seq<char>) -> SpecTables {
        SpecTables { encodings: self.encodings.push(name), ..self }
    }

    /// The tables with one more font.
    pub open spec fn with_font(self, font: SpecFontDef) -> SpecTables {
        SpecTables { fonts: self.fonts.push(font), ..self }
    }

    /// The tables with one more color.
    pub open spec fn with_color(self, color: SpecColorDef) -> SpecTables {
        SpecTables { colors: self.colors.push(color), ..self }
    }

    /// Every entry of `self` stands in `later` at the same index.
    pub open spec fn grows_to(self, later: SpecTables) -> bool {
        &&& self.encodings.is_prefix_of(later.encodings)
        &&& self.fonts.is_prefix_of(later.fonts)
        &&& self.colors.is_prefix_of(later.colors)
    }

    /// The name of the encoding at `index`.
    pub open spec fn encoding(self, index: int) -> Result<Seq<char>, Error> {
        if 0 <= index < self.encodings.len() {
            Ok(self.encodings[index])
        } else {
            Err(Error::UnresolvedIndex { table: TableKind::Encoding, index: index as usize })
        }
    }

    /// The font at `index`.
    pub open spec fn font(self, index: int) -> Result<SpecFontDef, Error> {
        if 0 <= index < self.fonts.len() {
            Ok(self.fonts[index])
        } else {
            Err(Error::UnresolvedIndex { table: TableKind::Font, index: index as usize })
        }
    }

    /// The color at `index`.
    pub open spec fn color(self, index: int) -> Result<SpecColorDef, Error> {
        if 0 <= index < self.colors.len() {
            Ok(self.colors[index])
        } else {
            Err(Error::UnresolvedIndex { table: TableKind::Color, index: index as usize })
        }
    }

    /// The name of the encoding of the font at `index`.
    pub open spec fn font_encoding(self, index: int) -> Result<Seq<char>, Error> {
        match self.font(index) {
            Err(e) => Err(e),
            Ok(font) => self.encoding(font.encoding_index as int),
        }
    }
}

/// The models of a sequence of fonts.
pub open spec fn fonts_view(v: Seq<FontDef>) -> Seq<SpecFontDef> {
    Seq::new(v.len(), |i: int| v[i]@)
}

/// The models of a sequence of colors.
pub open spec fn colors_view(v: Seq<ColorDef>) -> Seq<SpecColorDef> {
    Seq::new(v.len(), |i: int| v[i]@)
}

/// The definition tables of a document.
#[derive(Debug, PartialEq, Eq)]
pub struct DefinitionTables {
    encodings: Vec<String>,
    fonts: Vec<FontDef>,
    colors: Vec<ColorDef>,
}

impl View for DefinitionTables {
    type V = SpecTables;

    closed spec fn view(&self) -> SpecTables {
        SpecTables {
            encodings: texts_of(self.encodings@),
            fonts: fonts_view(self.fonts@),
            colors: colors_view(self.colors@),
        }
    }
}

impl DefinitionTables {
    /// The tables of a document before its stream is read: the four
    /// built-in encodings, no font and no color.
    pub fn new() -> (tables: DefinitionTables)
        ensures
            tables@ == initial_tables(),
    {
        let mut encodings: Vec<String> = Vec::new();
        encodings.push(String::from_str("MTCode"));
        encodings.push(String::from_str("Unknown"));
        encodings.push(String::from_str("Symbol"));
        encodings.push(String::from_str("MTExtra"));
        let tables = DefinitionTables { encodings, fonts: Vec::new(), colors: Vec::new() };
        assert(tables@.encodings =~= builtin_encodings());
        assert(tables@.fonts =~= Seq::empty());
        assert(tables@.colors =~= Seq::empty());
        tables
    }

    /// Appends an encoding definition.
    pub fn push_encoding(&mut self, name: String)
        ensures
            final(self)@ == old(self)@.with_encoding(name@),
    {
        self.encodings.push(name);
        assert(final(self)@.encodings =~= old(self)@.encodings.push(name@));
    }

    /// Appends a font definition.
    pub fn push_font(&mut self, font: FontDef)
        ensures
            final(self)@ == old(self)@.with_font(font@),
    {
        self.fonts.push(font);
        assert(final(self)@.fonts =~= old(self)@.fonts.push(font@));
    }

    /// Appends a color definition.
    pub fn push_color(&mut self, color: ColorDef)
        ensures
            final(self)@ == old(self)@.with_color(color@),
    {
        self.colors.push(color);
        assert(final(self)@.colors =~= old(self)@.colors.push(color@));
    }

    /// The number of encodings, the built-in ones included.
    pub fn encoding_count(&self) -> (n: usize)
        ensures
            n == self@.encodings.len(),
    {
        self.encodings.len()
    }

    /// The number of fonts.
    pub fn font_count(&self) -> (n: usize)
        ensures
            n == self@.fonts.len(),
    {
        self.fonts.len()
    }

    /// The number of colors.
    pub fn color_count(&self) -> (n: usize)
        ensures
            n == self@.colors.len(),
    {
        self.colors.len()
    }

    /// The name of the encoding at `index`.
    pub fn encoding(&self, index: usize) -> (r: Result<&String, Error>)
        ensures
            match self@.encoding(index as int) {
                Ok(name) => r is Ok && r->Ok_0@ == name,
                Err(e) => r is Err && r->Err_0 == e,
            },
    {
        if index < self.encodings.len() {
            Ok(&self.encodings[index])
        } else {
            Err(Error::UnresolvedIndex { table: TableKind::Encoding, index })
        }
    }

    /// The font at `index`.
    pub fn font(&self, index: usize) -> (r: Result<&FontDef, Error>)
        ensures
            match self@.font(index as int) {
                Ok(font) => r is Ok && r->Ok_0@ == font,
                Err(e) => r is Err && r->Err_0 == e,
            },
    {
        if index < self.fonts.len() {
            Ok(&self.fonts[index])
        } else {
            Err(Error::UnresolvedIndex { table: TableKind::Font, index })
        }
    }

    /// The color at `index`.
    pub fn color(&self, index: usize) -> (r: Result<&ColorDef, Error>)
        ensures
            match self@.color(index as int) {
                Ok(color) => r is Ok && r->Ok_0@ == color,
                Err(e) => r is Err && r->Err_0 == e,
            },
    {
        if index < self.colors.len() {
            Ok(&self.colors[index])
        } else {
            Err(Error::UnresolvedIndex { table: TableKind::Color, index })
        }
    }

    /// The name of the encoding of the font at `index`: an error where the
    /// table has no such font, or where the font names an encoding that the
    /// table does not have.
    pub fn font_encoding(&self, index: usize) -> (r: Result<&String, Error>)
        ensures
            match self@.font_encoding(index as int) {
                Ok(name) => r is Ok && r->Ok_0@ == name,
                Err(e) => r is Err && r->Err_0 == e,
            },
    {
        match self.font(index) {
            Err(e) => Err(e),
            Ok(font) => self.encoding(font.encoding_index as usize),
        }
    }
}

/// Tables grow to themselves, and what they grow to in two steps they grow
/// to in one.
pub proof fn lemma_growth_is_an_order(a: SpecTables, b: SpecTables, c: SpecTables)
    ensures
        a.grows_to(a),
        a.grows_to(b) && b.grows_to(c) ==> a.grows_to(c),
{
}

/// Every appended definition is growth.
pub proof fn lemma_appending_is_growth(
    tables: SpecTables,
    name: Seq<char>,
    font: SpecFontDef,
    color: SpecColorDef,
)
    ensures
        tables.grows_to(tables.with_encoding(name)),
        tables.grows_to(tables.with_font(font)),
        tables.grows_to(tables.with_color(color)),
{
}

/// An index that resolves in a table resolves to the same entry in every
/// table that it grows to; one that resolves in neither lies beyond the
/// larger table's size.
pub proof fn lemma_resolution_is_stable(early: SpecTables, late: SpecTables, index: int)
    requires
        early.grows_to(late),
    ensures
        early.encoding(index) is Ok ==> late.encoding(index) == early.encoding(index),
        early.font(index) is Ok ==> late.font(index) == early.font(index),
        early.color(index) is Ok ==> late.color(index) == early.color(index),
        late.encoding(index) is Err <==> !(0 <= index < late.encodings.len()),
        late.font(index) is Err <==> !(0 <= index < late.fonts.len()),
        late.color(index) is Err <==> !(0 <= index < late.colors.len()),
        early.encodings.len() <= late.encodings.len(),
        early.fonts.len() <= late.fonts.len(),
        early.colors.len() <= late.colors.len(),
{
}

} // verus!
