//! Decoder for MTEF, the binary equation format of MathType and Equation
//! Editor, into an equation tree, and a translator from that tree to text.

pub mod constants;
pub mod cursor;
pub mod eqn;
pub mod error;
pub mod header;
pub mod node;
pub mod options;
pub mod primitives;
pub mod record;
pub mod tables;
pub mod text;
pub mod translate;
pub mod tree;
