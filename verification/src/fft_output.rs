//! A spectrum as an audio output.

use vstd::prelude::*;

verus! {

pub struct FFTOutput {}

} // verus!
