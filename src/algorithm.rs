//! Which of the three transforms a block goes through, and how the choice is
//! shown to a user.
use vstd::prelude::*;

verus! {

/// The transform that a whole block is routed through.
#[derive(Clone, Copy, Debug, PartialEq, Eq, Structural)]
pub enum Algorithm {
    /// Gain, then hard clipping to [-1, 1].
    Clip,
    /// Rational soft saturation driven by a shape amount.
    Shape,
    /// Envelope-following gain applied to a delayed copy of the input.
    Maximizer,
}

/// The transform selected by a value of the integer algorithm parameter;
/// none (the block passes through unchanged) outside 0, 1 and 2.
pub open spec fn selected(value: int) -> Option<Algorithm> {
    if value == 0 {
        Some(Algorithm::Clip)
    } else if value == 1 {
        Some(Algorithm::Shape)
    } else if value == 2 {
        Some(Algorithm::Maximizer)
    } else {
        None
    }
}

/// Display name of a value of the algorithm parameter.
pub open spec fn label(value: int) -> Seq<char> {
    if value == 0 {
        "Clip"@
    } else if value == 1 {
        "SuperDirt Shape"@
    } else if value == 2 {
        "Barry's Satan Maximizer"@
    } else {
        "???"@
    }
}

impl Algorithm {
    /// Position of the transform in the parameter's range.
    pub open spec fn index(self) -> int {
        match self {
            Algorithm::Clip => 0,
            Algorithm::Shape => 1,
            Algorithm::Maximizer => 2,
        }
    }

    /// Reads the algorithm parameter; `None` means the block is left as it is.
    pub fn from_param(value: i32) -> (r: Option<Algorithm>)
        ensures
            r == selected(value as int),
    {
        match value {
            0 => Some(Algorithm::Clip),
            1 => Some(Algorithm::Shape),
            2 => Some(Algorithm::Maximizer),
            _ => None,
        }
    }

    /// The parameter value that selects this transform.
    pub fn to_param(self) -> (r: i32)
        ensures
            r == self.index(),
            selected(r as int) == Some(self),
    {
        match self {
            Algorithm::Clip => 0,
            Algorithm::Shape => 1,
            Algorithm::Maximizer => 2,
        }
    }

    /// Display name of the transform.
    pub fn name(self) -> (r: &'static str)
        ensures
            r@ == label(self.index()),
    {
        match self {
            Algorithm::Clip => "Clip",
            Algorithm::Shape => "SuperDirt Shape",
            Algorithm::Maximizer => "Barry's Satan Maximizer",
        }
    }
}

/// Display name of a value of the algorithm parameter, `"???"` for a value
/// that selects no transform.
pub fn algorithm_name(value: i32) -> (r: &'static str)
    ensures
        r@ == label(value as int),
{
    match Algorithm::from_param(value) {
        Some(a) => a.name(),
        None => "???",
    }
}

/// Every transform is selected by exactly the parameter value it reports,
/// and carries the name that value is displayed with.
pub proof fn lemma_param_round_trip(a: Algorithm)
    ensures
        selected(a.index()) == Some(a),
        0 <= a.index() <= 2,
{
}

/// Values outside 0, 1 and 2 select nothing, so the block passes through.
pub proof fn lemma_out_of_range_passes_through(value: int)
    requires
        value < 0 || value > 2,
    ensures
        selected(value) is None,
        label(value) == "???"@,
{
}

} // verus!
