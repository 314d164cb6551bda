//! Fallback rules for the externally supplied media locations.
//!
//! The supervisor is configured with two optional string values naming the
//! input and output media locations; an absent value falls back to a fixed
//! default before the pipeline topology is built.

use vstd::prelude::*;

verus! {

/// The input location that a configured value resolves to.
pub open spec fn input_location_spec(configured: Option<String>) -> Seq<char> {
    match configured {
        Option::Some(s) => s@,
        Option::None => "input.mp3"@,
    }
}

/// The output location that a configured value resolves to.
pub open spec fn output_location_spec(configured: Option<String>) -> Seq<char> {
    match configured {
        Option::Some(s) => s@,
        Option::None => "output.mp4"@,
    }
}

/// Resolve the input media location: the configured value, or the default.
pub fn input_location(configured: Option<String>) -> (r: String)
    ensures
        r@ == input_location_spec(configured),
{
    match configured {
        Option::Some(s) => s,
        Option::None => "input.mp3".to_owned(),
    }
}

/// Resolve the output media location: the configured value, or the default.
pub fn output_location(configured: Option<String>) -> (r: String)
    ensures
        r@ == output_location_spec(configured),
{
    match configured {
        Option::Some(s) => s,
        Option::None => "output.mp4".to_owned(),
    }
}

} // verus!
