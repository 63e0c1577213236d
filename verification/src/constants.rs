//! Numeric values that MTEF assigns to record types, option flags, typefaces
//! and type sizes.
//!
//! MTEF data exists in the following versions:
//! - 0  MathType for Mac 1.x
//! - 1  MathType for Mac 2.x and MathType for Windows 1.x
//! - 2  MathType 3.x and Equation Editor 1.x
//! - 3  Equation Editor 3.x
//! - 4  MathType 3.5
//! - 5  MathType 4.0 and later
//!
//! Each MTEF 5 record starts with a type byte. Equation structure records
//! (LINE, CHAR, TMPL) continue with an option byte whose flags are
//! record-dependent.

use vstd::prelude::*;

verus! {

// Record types.

/// end of MTEF, pile, line, embellishment list, or template
pub const END: u8 = 0;
/// line (slot)
pub const LINE: u8 = 1;
/// character
pub const CHAR: u8 = 2;
/// template
pub const TMPL: u8 = 3;
/// pile (vertical stack of lines)
pub const PILE: u8 = 4;
/// matrix
pub const MATRIX: u8 = 5;
/// character embellishment (e.g. hat, prime)
pub const EMBELL: u8 = 6;
/// ruler (tab-stop location)
pub const RULER: u8 = 7;
/// font/char style definition
pub const FONT_STYLE_DEF: u8 = 8;
/// general size
pub const SIZE: u8 = 9;
/// full size
pub const FULL: u8 = 10;
/// subscript size
pub const SUB: u8 = 11;
/// sub-subscript size
pub const SUB2: u8 = 12;
/// symbol size
pub const SYM: u8 = 13;
/// sub-symbol size
pub const SUBSYM: u8 = 14;
/// color
pub const COLOR: u8 = 15;
/// color definition
pub const COLOR_DEF: u8 = 16;
/// font definition
pub const FONT_DEF: u8 = 17;
/// equation preferences (sizes, styles, spacing)
pub const EQN_PREFS: u8 = 18;
/// encoding definition
pub const ENCODING_DEF: u8 = 19;
/// first record type reserved for future expansion; such a record carries
/// its own byte length
pub const FUTURE: u8 = 100;

// Option flags for all equation structure records.

/// nudge values follow tag
pub const MTEF_OPT_NUDGE: u8 = 0x08;

// Option flags for CHAR records.

/// character is followed by an embellishment list
pub const MTEF_OPT_CHAR_EMBELL: u8 = 0x01;
/// character starts a function (sin, cos, etc.)
pub const MTEF_OPT_CHAR_FUNC_START: u8 = 0x02;
/// character is written with an 8-bit encoded value
pub const MTEF_OPT_CHAR_ENC_CHAR_8: u8 = 0x04;
/// character is written with an 16-bit encoded value
pub const MTEF_OPT_CHAR_ENC_CHAR_16: u8 = 0x10;
/// character is written without an 16-bit MTCode value
pub const MTEF_OPT_CHAR_ENC_NO_MTCODE: u8 = 0x20;

// Option flags for LINE records.

/// line is a placeholder only (i.e. not displayed)
pub const MTEF_OPT_LINE_NULL: u8 = 0x01;
/// line spacing value follows tag
pub const MTEF_OPT_LINE_LSPACE: u8 = 0x04;
/// RULER record follows LINE or PILE record
pub const MTEF_OPT_LP_RULER: u8 = 0x02;

// Option flags for COLOR_DEF records.

/// color model is CMYK, else RGB
pub const MTEF_COLOR_CMYK: u8 = 0x01;
/// color is a spot color, else a process color
pub const MTEF_COLOR_SPOT: u8 = 0x02;
/// color has a name, else no name
pub const MTEF_COLOR_NAME: u8 = 0x04;

// Typeface values. A CHAR record stores its typeface biased by 128; a
// positive value, once the bias is taken off, is one of these styles.

pub const FN_TEXT: u8 = 1;
pub const FN_FUNCTION: u8 = 2;
pub const FN_VARIABLE: u8 = 3;
pub const FN_LCGREEK: u8 = 4;
pub const FN_UCGREEK: u8 = 5;
pub const FN_SYMBOL: u8 = 6;
pub const FN_VECTOR: u8 = 7;
pub const FN_NUMBER: u8 = 8;
pub const FN_USER1: u8 = 9;
pub const FN_USER2: u8 = 10;
pub const FN_MTEXTRA: u8 = 11;
pub const FN_TEXT_FE: u8 = 12;
pub const FN_EXPAND: u8 = 22;
pub const FN_MARKER: u8 = 23;
pub const FN_SPACE: u8 = 24;

// Typesize values (sometimes referred to as lsizes).

/// full
pub const SZ_FULL: u8 = 0;
/// subscript
pub const SZ_SUB: u8 = 1;
/// sub-subscript
pub const SZ_SUB2: u8 = 2;
/// symbol
pub const SZ_SYM: u8 = 3;
/// sub-symbol
pub const SZ_SUBSYM: u8 = 4;
/// user 1
pub const SZ_USER1: u8 = 5;
/// user 2
pub const SZ_USER2: u8 = 6;
/// delta increment
pub const SZ_DELTA: u8 = 7;

} // verus!
