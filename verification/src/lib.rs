use vstd::prelude::*;

pub mod bit_crush;
pub mod config;
pub mod envelope;
pub mod fixed;
pub mod json;
pub mod noise;
pub mod passband;
pub mod phase;
pub mod synth;
pub mod trig;
pub mod waveform;

verus! {

/// A rendered buffer of samples together with the rate they were rendered at.
pub struct Samples<T> {
    pub sample_rate: u32,
    pub samples: Vec<T>,
}

/// The name this library goes by.
pub fn name() -> (r: String)
    ensures
        r@ == "rs-fxr"@,
{
    String::from_str("rs-fxr")
}

} // verus!
