//! The ways in which preprocessing a script can fail.
use vstd::prelude::*;

verus! {

/// Why a script could not be preprocessed.
#[derive(Clone, Copy, Debug, PartialEq, Eq, Structural)]
pub enum PreprocessError {
    /// A header start marker with no end marker after it.
    HeaderNeverEnds,
    /// A repeat-close directive with no repeat block open.
    UnexpectedEndRepeat,
    /// A repeat block still open at the end of the script.
    UnterminatedRepeat,
    /// A repeat-open directive whose count is not a number.
    MalformedRepeatCount,
    /// An object block still open at the end of the script.
    ObjectNotClosed,
    /// An every-player flag outside an object block.
    PlayerFlagOutsideObject,
    /// A line after land generation whose random range cannot be read, or
    /// whose maximum is the largest `u32`.
    MalformedRandomRange,
    /// A random range whose minimum is not below its maximum.
    EmptyRandomRange,
    /// A line after land generation with more than one random range.
    SeveralRandomRanges,
    /// An actor-area creation line with no name before its last word.
    MalformedActorArea,
    /// Fewer outside expansions than directives that need one.
    MissingExpansion,
    /// A macro directive whose parenthesised arguments are not numbers.
    MalformedMacroArguments,
}

} // verus!
