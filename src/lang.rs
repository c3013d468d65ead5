//! The binding of the taxonomy to rowan's raw kind tags.

use vstd::prelude::*;

use crate::kind::{OutOfRange, SyntaxKind, VARIANT_COUNT};
use rowan::SyntaxKind as RawKind;

verus! {

/// rowan's raw kind tag (`rowan::SyntaxKind`), a public `u16` field that Verus reads directly.
#[verifier::external_type_specification]
pub struct ExRawKind(RawKind);

/// The TeX language of the generic lossless tree: it translates raw kind tags.
#[derive(Debug, Clone, Copy, PartialEq, Eq, PartialOrd, Ord, Hash)]
pub struct TexLang;

impl TexLang {
    /// The syntax kind that a raw tag stands for; `OutOfRange` when it stands for none.
    pub fn kind_from_raw(raw: RawKind) -> (r: Result<SyntaxKind, OutOfRange>)
        ensures
            raw.0 < VARIANT_COUNT ==> r == Ok::<SyntaxKind, OutOfRange>(SyntaxKind::kind_at(raw.0)),
            raw.0 >= VARIANT_COUNT ==> r == Err::<SyntaxKind, OutOfRange>(OutOfRange { raw: raw.0 }),
    {
        SyntaxKind::from_raw(raw.0)
    }

    /// The raw tag that stands for a syntax kind.
    pub fn kind_to_raw(kind: SyntaxKind) -> (r: RawKind)
        ensures
            r.0 as int == kind.ordinal(),
    {
        RawKind::from(kind)
    }
}

impl From<SyntaxKind> for RawKind {
    fn from(kind: SyntaxKind) -> (r: RawKind) {
        RawKind(kind.to_raw())
    }
}

impl vstd::std_specs::convert::FromSpecImpl<SyntaxKind> for RawKind {
    open spec fn obeys_from_spec() -> bool {
        true
    }

    open spec fn from_spec(kind: SyntaxKind) -> RawKind {
        RawKind(kind.ordinal() as u16)
    }
}

} // verus!
