//! Error taxonomy of the rendering core.
//!
//! Every failure a caller can see is one of these variants; functions state
//! in their contracts exactly which inputs produce which variant.

use vstd::prelude::*;

verus! {

/// A failure while preparing GPU resources or shader programs.
///
/// `SourceUnreadable` and `UnknownStageKind` arise before any GPU work;
/// `CompileError` and `LinkError` carry the driver's diagnostic log;
/// `ResourceExhausted` reports a GPU object allocation that handed back the
/// reserved null handle instead of a fresh object.
#[derive(Debug)]
pub enum RenderError {
    SourceUnreadable,
    UnknownStageKind,
    CompileError(String),
    LinkError(String),
    ResourceExhausted,
}

} // verus!
