//! The input of the put operation.
use vstd::prelude::*;

verus! {

/// The input of a put: the resource's configuration and the step's
/// parameters (an `Option` where the step may give none).
#[derive(Debug, Clone, PartialEq, Eq)]
pub struct PutResource<P, S> {
    pub source: S,
    pub params: P,
}

} // verus!
