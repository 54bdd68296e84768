//! The kinds of script values.

use vstd::prelude::*;

verus! {

/// The kind of a script value.
#[derive(Clone, Copy, Debug, PartialEq, Eq, Structural)]
pub enum ValueKind {
    Undefined,
    Null,
    Boolean,
    Number,
    BigInt,
    String,
    Symbol,
    Object,
}

impl ValueKind {
    /// Whether values of the kind have neither identity nor contents to copy.
    pub open spec fn spec_is_plain(self) -> bool {
        !(self is Symbol) && !(self is Object)
    }

    /// Whether values of the kind have neither identity nor contents to copy.
    pub fn is_plain(self) -> (plain: bool)
        ensures
            plain == self.spec_is_plain(),
    {
        match self {
            ValueKind::Undefined
            | ValueKind::Null
            | ValueKind::Boolean
            | ValueKind::Number
            | ValueKind::BigInt
            | ValueKind::String => true,
            ValueKind::Symbol | ValueKind::Object => false,
        }
    }
}

} // verus!
