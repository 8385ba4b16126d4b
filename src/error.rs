use vstd::prelude::*;

use crate::kinds::{description_spec, EventKind, TargetKind};

verus! {

/// Why a coercion failed.
#[derive(Clone, Copy, Debug, PartialEq, Eq, Structural)]
pub enum VisitError {
    /// An integer lies outside the range of the narrower target.
    Overflow,
    /// The target has no way to accept an event of this kind.
    InvalidType { event: EventKind, expected: TargetKind },
}

pub open spec fn message_spec(e: VisitError) -> Seq<char> {
    match e {
        VisitError::Overflow => "overflow"@,
        VisitError::InvalidType { expected, .. } => description_spec(expected),
    }
}

impl VisitError {
    /// The error's text: "overflow", or what the target expected.
    pub fn message(&self) -> (r: &'static str)
        ensures
            r@ == message_spec(*self),
    {
        match self {
            VisitError::Overflow => "overflow",
            VisitError::InvalidType { expected, .. } => expected.description(),
        }
    }
}

} // verus!
