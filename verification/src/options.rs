//! The option byte of a record, as a set of named flags.

use vstd::prelude::*;
use crate::constants::{
    MTEF_OPT_CHAR_EMBELL, MTEF_OPT_CHAR_ENC_CHAR_16, MTEF_OPT_CHAR_ENC_CHAR_8,
    MTEF_OPT_CHAR_ENC_NO_MTCODE, MTEF_OPT_CHAR_FUNC_START, MTEF_OPT_LINE_LSPACE,
    MTEF_OPT_LINE_NULL, MTEF_OPT_LP_RULER, MTEF_OPT_NUDGE,
};

verus! {

/// Whether the option byte `options` has the bit of `flag` set.
pub open spec fn has_flag(options: u8, flag: u8) -> bool {
    options & flag != 0
}

/// The option byte that follows the tag of a LINE, CHAR or TMPL record.
#[derive(Debug, Clone, Copy, PartialEq, Eq)]
pub struct RecordOptions {
    pub bits: u8,
}

impl RecordOptions {
    /// The options that the byte `bits` stands for.
    pub fn new(bits: u8) -> (options: RecordOptions)
        ensures
            options.bits == bits,
    {
        RecordOptions { bits }
    }

    /// Nudge values follow the option byte.
    pub fn nudge(self) -> (b: bool)
        ensures
            b == has_flag(self.bits, MTEF_OPT_NUDGE),
    {
        self.bits & MTEF_OPT_NUDGE != 0
    }

    /// The character is followed by an embellishment list.
    pub fn char_embell(self) -> (b: bool)
        ensures
            b == has_flag(self.bits, MTEF_OPT_CHAR_EMBELL),
    {
        self.bits & MTEF_OPT_CHAR_EMBELL != 0
    }

    /// The character starts a function.
    pub fn char_func_start(self) -> (b: bool)
        ensures
            b == has_flag(self.bits, MTEF_OPT_CHAR_FUNC_START),
    {
        self.bits & MTEF_OPT_CHAR_FUNC_START != 0
    }

    /// The character is written with an 8-bit font position.
    pub fn char_enc_char_8(self) -> (b: bool)
        ensures
            b == has_flag(self.bits, MTEF_OPT_CHAR_ENC_CHAR_8),
    {
        self.bits & MTEF_OPT_CHAR_ENC_CHAR_8 != 0
    }

    /// The character is written with a 16-bit font position.
    pub fn char_enc_char_16(self) -> (b: bool)
        ensures
            b == has_flag(self.bits, MTEF_OPT_CHAR_ENC_CHAR_16),
    {
        self.bits & MTEF_OPT_CHAR_ENC_CHAR_16 != 0
    }

    /// The character is written without an MTCode value.
    pub fn char_enc_no_mtcode(self) -> (b: bool)
        ensures
            b == has_flag(self.bits, MTEF_OPT_CHAR_ENC_NO_MTCODE),
    {
        self.bits & MTEF_OPT_CHAR_ENC_NO_MTCODE != 0
    }

    /// The line is a placeholder only.
    pub fn line_null(self) -> (b: bool)
        ensures
            b == has_flag(self.bits, MTEF_OPT_LINE_NULL),
    {
        self.bits & MTEF_OPT_LINE_NULL != 0
    }

    /// A line spacing value follows the option byte.
    pub fn line_lspace(self) -> (b: bool)
        ensures
            b == has_flag(self.bits, MTEF_OPT_LINE_LSPACE),
    {
        self.bits & MTEF_OPT_LINE_LSPACE != 0
    }

    /// A RULER record follows the LINE or PILE record.
    pub fn lp_ruler(self) -> (b: bool)
        ensures
            b == has_flag(self.bits, MTEF_OPT_LP_RULER),
    {
        self.bits & MTEF_OPT_LP_RULER != 0
    }
}

} // verus!
