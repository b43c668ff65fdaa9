//! Errors of the UEBA binary codec.

use vstd::prelude::*;

verus! {

/// Why a UEBA decode failed.
#[derive(Clone, Copy, Debug, PartialEq, Eq, Structural)]
pub enum UebaError {
    /// The input ended before the value was complete.
    UnexpectedEnd,
    /// The tag byte names no variant of the enum being decoded.
    UnknownEnumTag(u8),
}

} // verus!
