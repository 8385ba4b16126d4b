use vstd::prelude::*;

mod defaults;
mod error;
mod kinds;
mod visitor;

pub use defaults::is_default;
pub use error::VisitError;
pub use kinds::{conversion, Conversion, EventKind, TargetKind};
pub use visitor::{IntTarget, Target, TypedVisitor};

verus! {

} // verus!
