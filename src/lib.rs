//! Signal-path core of a three-mode distortion effect: the choice of
//! algorithm, its display names, and the fixed-size lookahead line with
//! which the envelope maximizer delays its input.
use vstd::prelude::*;

pub mod algorithm;
pub mod delay_line;
pub mod maximizer;

verus! {

} // verus!
