//! Configuration and rule material for an event-log analyzer: pattern
//! tables read from delimited text, the command-line surface, and the
//! snapshot that bundles them for the rest of the pipeline.
use vstd::prelude::*;

pub mod arguments;
pub mod configs;
pub mod patterns;

verus! {

} // verus!
